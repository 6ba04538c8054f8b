use nes_emu::bus::{BusDevice, Device, DualBus, EmulState};
use nes_emu::cartrige::Cartrige;
use nes_emu::ram::RAM;

fn image(prg_banks: u8) -> Vec<u8> {
    let mut rom = vec![0x4E, 0x45, 0x53, 0x1A, prg_banks, 1, 0, 0];
    rom.resize(16, 0);
    for i in 0..(prg_banks as usize * 16384) {
        rom.push((i % 251) as u8);
    }
    for i in 0..8192usize {
        rom.push((i % 7) as u8);
    }
    rom
}

#[test]
fn ram_starts_filled_with_ff() {
    let ram = RAM::new();
    assert_eq!(ram.abus_read(0x0000), 0xFF);
    assert_eq!(ram.abus_read(0x07FF), 0xFF);
    assert_eq!(ram.bbus_read(0x0000), 0);
}

#[test]
fn ram_read_after_write_and_mirroring() {
    let mut ram = RAM::new();
    ram.abus_write(0x0123, 0x42);
    assert_eq!(ram.abus_read(0x0123), 0x42);
    assert_eq!(ram.abus_read(0x0923), 0x42);
    assert_eq!(ram.abus_read(0x1923), 0x42);
    assert_eq!(ram.abus_read(0x0124), 0xFF);
    ram.abus_write(0x1FFF, 7);
    assert_eq!(ram.abus_read(0x07FF), 7);
    ram.bbus_write(0x0123, 9);
    assert_eq!(ram.abus_read(0x0123), 0x42);
    assert_eq!(ram.bounds_abus(), (0x0000, 0x1FFF));
    assert_eq!(ram.bounds_bbus(), (0, 0));
}

#[test]
fn bus_routes_to_first_claiming_device() {
    let rom = image(2);
    let cart = Cartrige::load_rom(&rom).unwrap();
    let mut bus = DualBus { devices: vec![Device::Ram(RAM::new()), Device::Cartrige(cart)] };
    bus.abus_write(0x0010, 0x5A);
    assert_eq!(bus.abus_read(0x0010), 0x5A);
    assert_eq!(bus.abus_read(0x0810), 0x5A);
    assert_eq!(bus.abus_read(0x8000), rom[16]);
    // no device answers 0x2000..0x401F
    assert_eq!(bus.abus_read(0x3000), 0);
    bus.abus_write(0x3000, 1);
    assert_eq!(bus.abus_read(0x3000), 0);
    // the PPU bus: RAM answers only 0x0000, the cartridge everything up to 0x2FFF
    assert_eq!(bus.bbus_read(0x0000), 0);
    assert_eq!(bus.bbus_read(0x0001), 1);
    assert_eq!(bus.bbus_read(0x3000), 0);
    bus.bbus_write(0x0001, 0xAA);
    assert_eq!(bus.bbus_read(0x0001), 1);
}

#[test]
fn bus_write_is_isolated() {
    let rom = image(2);
    let cart = Cartrige::load_rom(&rom).unwrap();
    let mut bus = DualBus { devices: vec![Device::Ram(RAM::new()), Device::Cartrige(cart)] };
    let before = bus.abus_read(0x9000);
    bus.abus_write(0x0100, 3);
    assert_eq!(bus.abus_read(0x9000), before);
}

#[test]
fn bus_readability() {
    let rom = image(1);
    let cart = Cartrige::load_rom(&rom).unwrap();
    let bus = DualBus { devices: vec![Device::Cartrige(cart)] };
    assert!(bus.abus_readable(0x8000));
    assert!(!bus.abus_readable(0xC000));
    assert!(bus.abus_readable(0x0000));
    assert!(bus.bbus_readable(0x1FFF));
}

#[test]
fn device_dispatch() {
    let mut d = Device::Ram(RAM::new());
    d.abus_write(0x0001, 0x10);
    assert_eq!(d.abus_read(0x0801), 0x10);
    assert_eq!(d.bounds_abus(), (0x0000, 0x1FFF));
    assert!(d.abus_readable(0x1234));
}

#[test]
fn init_builds_console_from_image() {
    let rom = image(2);
    let state = EmulState::init(&rom).unwrap();
    assert_eq!(state.bus.devices.len(), 1);
    assert!(matches!(state.bus.devices[0], Device::Cartrige(_)));
    assert_eq!(state.bus.abus_read(0x8005), rom[16 + 5]);
    assert_eq!(state.bus.bbus_read(0x0003), 3);
    assert_eq!(state.cpu.pc(), 0);
    assert_eq!(state.cpu.t_state(), 1);
}

#[test]
fn init_rejects_bad_image() {
    let mut rom = image(1);
    rom.truncate(100);
    assert!(EmulState::init(&rom).is_none());
}
