# nes_emu

The core of a small NES emulator, written in Verus and verified.

- `src/cartrige.rs`: iNES image checks and loading, the cartridge memories and
  the mapper boards (NROM).
- `src/bus.rs`: the bus device interface, the dual (CPU/PPU) bus that routes
  accesses to the first device whose bounds hold the address, and the console state.
- `src/ram.rs`: the 2 KiB work RAM, mirrored over 0x0000..=0x1FFF.
- `src/cpu.rs`: the 6502, stepped one cycle at a time through per-instruction
  micro-op lists; the laws about timing and the reset sequence are proved here.
- `src/state.rs`: the program state shared with the front end.
- `app/`: the SDL3 + Dear ImGui front end (file dialog, ROM info, memory viewer,
  register view).
