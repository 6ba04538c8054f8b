[package]
name = "nes_emu"
version = "0.1.0"
edition = "2021"
publish = false

[dependencies]
imgui = "=0.12.0"
imgui-sdl3 = "=0.5.2"
sdl3 = "=0.17.3"
rfd = { version = "=0.17.2", default-features = false, features = ["xdg-portal"] }
