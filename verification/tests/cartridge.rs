use nes_emu::bus::BusDevice;
use nes_emu::cartrige::{header_is_readable, is_valid_rom, Cartrige, CartMapper, Mapper, NametableMirroring};

/// An iNES image: header, optional trainer, `prg_banks` x 16 KiB of program ROM
/// filled by `prg_fill`, `chr_banks` x 8 KiB of character ROM filled by `chr_fill`.
fn image(prg_banks: u8, chr_banks: u8, flags6: u8, flags7: u8) -> Vec<u8> {
    let mut rom = vec![0x4E, 0x45, 0x53, 0x1A, prg_banks, chr_banks, flags6, flags7];
    rom.resize(16, 0);
    if flags6 & 4 != 0 {
        rom.extend(std::iter::repeat(0xEE).take(512));
    }
    for i in 0..(prg_banks as usize * 16384) {
        rom.push((i % 251) as u8);
    }
    for i in 0..(chr_banks as usize * 8192) {
        rom.push((i % 241) as u8 ^ 0x55);
    }
    rom
}

#[test]
fn valid_rom_accepts_ines_header() {
    assert!(is_valid_rom(&image(1, 1, 0, 0)));
}

#[test]
fn valid_rom_rejects_bad_magic() {
    let mut rom = image(1, 1, 0, 0);
    rom[3] = 0x1B;
    assert!(!is_valid_rom(&rom));
    assert!(!is_valid_rom(&[0u8]));
    assert!(!is_valid_rom(&[0x4E, 0x45, 0x00]));
}

#[test]
fn valid_rom_mapper_number_limit() {
    // mapper 232 = 0xE8: flags7 upper nibble 0xE, flags6 upper nibble 0x8
    let rom = image(1, 1, 0x80, 0xE0);
    assert!(is_valid_rom(&rom));
    // mapper 233 = 0xE9
    let rom = image(1, 1, 0x90, 0xE0);
    assert!(!is_valid_rom(&rom));
    // mapper 255
    let rom = image(1, 1, 0xF0, 0xF0);
    assert!(!is_valid_rom(&rom));
}

#[test]
fn load_rom_splits_the_image() {
    let rom = image(1, 1, 0x01, 0);
    let cart = Cartrige::load_rom(&rom).unwrap();
    assert_eq!(cart.prg_rom.len(), 16384);
    assert_eq!(cart.chr_rom.len(), 8192);
    assert_eq!(&cart.prg_rom[..], &rom[16..16 + 16384]);
    assert_eq!(&cart.chr_rom[..], &rom[16 + 16384..]);
    assert!(cart.prg_ram.is_empty());
    assert!(cart.nt_ram.is_empty());
    match &cart.mapper {
        CartMapper::Nrom(m) => assert!(matches!(m.mirroring, NametableMirroring::Vertical)),
    }
    assert_eq!(cart.mapper.mapper_name(), "NROM");
}

#[test]
fn load_rom_mirroring_flags() {
    let cart = Cartrige::load_rom(&image(1, 1, 0x00, 0)).unwrap();
    match &cart.mapper {
        CartMapper::Nrom(m) => assert!(matches!(m.mirroring, NametableMirroring::Horizontal)),
    }
    let cart = Cartrige::load_rom(&image(1, 1, 0x09, 0)).unwrap();
    match &cart.mapper {
        CartMapper::Nrom(m) => assert!(matches!(m.mirroring, NametableMirroring::FourScreen)),
    }
}

#[test]
fn load_rom_skips_trainer() {
    let rom = image(1, 1, 0x04, 0);
    let cart = Cartrige::load_rom(&rom).unwrap();
    assert_eq!(&cart.prg_rom[..], &rom[16 + 512..16 + 512 + 16384]);
    assert_eq!(&cart.chr_rom[..], &rom[16 + 512 + 16384..]);
}

#[test]
fn load_rom_rejects_short_image() {
    let mut rom = image(1, 1, 0, 0);
    rom.pop();
    assert!(Cartrige::load_rom(&rom).is_none());
}

#[test]
fn load_rom_rejects_unknown_mapper() {
    assert!(Cartrige::load_rom(&image(1, 1, 0x10, 0)).is_none());
    let mut rom = image(1, 1, 0, 0);
    rom[0] = 0;
    assert!(Cartrige::load_rom(&rom).is_none());
}

#[test]
fn cartridge_cpu_reads_mirror_prg_rom() {
    let rom = image(1, 1, 0, 0);
    let cart = Cartrige::load_rom(&rom).unwrap();
    assert_eq!(cart.abus_read(0x8000), rom[16]);
    assert_eq!(cart.abus_read(0x8123), rom[16 + 0x123]);
    // one ROM length further, the same byte
    assert_eq!(cart.abus_read(0xC123), rom[16 + 0x123]);
    assert!(!cart.abus_readable(0xC000));
    assert!(cart.abus_readable(0xC001));
    // empty program RAM window and unmapped space read 0
    assert_eq!(cart.abus_read(0x6000), 0);
    assert_eq!(cart.abus_read(0x5000), 0);
}

#[test]
fn cartridge_32k_prg_rom() {
    let rom = image(2, 1, 0, 0);
    let cart = Cartrige::load_rom(&rom).unwrap();
    assert_eq!(cart.abus_read(0xFFFF), rom[16 + 0x7FFF]);
    assert!(cart.abus_readable(0xC000));
}

#[test]
fn cartridge_prg_ram_read_after_write() {
    let rom = image(1, 1, 0, 0);
    let mut cart = Cartrige::load_rom(&rom).unwrap();
    cart.prg_ram = vec![0; 8192];
    cart.abus_write(0x6010, 0x77);
    assert_eq!(cart.abus_read(0x6010), 0x77);
    assert_eq!(cart.prg_ram[0x10], 0x77);
    // ROM ignores writes
    cart.abus_write(0x8000, 0x99);
    assert_eq!(cart.abus_read(0x8000), rom[16]);
}

#[test]
fn cartridge_ppu_reads_chr_rom() {
    let rom = image(1, 1, 0, 0);
    let mut cart = Cartrige::load_rom(&rom).unwrap();
    assert_eq!(cart.bbus_read(0x0000), rom[16 + 16384]);
    assert_eq!(cart.bbus_read(0x1FFF), rom[16 + 16384 + 0x1FFF]);
    assert_eq!(cart.bbus_read(0x2000), 0);
    cart.bbus_write(0x0000, 0x12);
    assert_eq!(cart.bbus_read(0x0000), rom[16 + 16384]);
    assert_eq!(cart.bounds_abus(), (0x4020, 0xFFFF));
    assert_eq!(cart.bounds_bbus(), (0x0000, 0x2FFF));
}

#[test]
fn cartridge_without_chr_rom_rejects_ppu_reads() {
    let cart = Cartrige::load_rom(&image(1, 0, 0, 0)).unwrap();
    assert!(!cart.bbus_readable(0x0000));
    assert!(cart.bbus_readable(0x2000));
}

#[test]
fn header_readability() {
    assert!(!header_is_readable(&[]));
    assert!(header_is_readable(&[0x00]));
    assert!(!header_is_readable(&[0x4E]));
    assert!(header_is_readable(&[0x4E, 0x00]));
    assert!(!header_is_readable(&[0x4E, 0x45, 0x53, 0x1A, 1, 1, 0]));
    assert!(header_is_readable(&[0x4E, 0x45, 0x53, 0x1A, 1, 1, 0, 0]));
}

#[test]
fn loadable_images_are_valid() {
    for flags6 in [0x00u8, 0x01, 0x04, 0x08, 0x09] {
        let rom = image(1, 1, flags6, 0);
        assert!(Cartrige::load_rom(&rom).is_some());
        assert!(is_valid_rom(&rom));
    }
}
