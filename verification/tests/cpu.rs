use nes_emu::bus::{BusDevice, Device, DualBus};
use nes_emu::cartrige::Cartrige;
use nes_emu::cpu::{BusAccess, Cpu6502};
use nes_emu::ram::RAM;

/// A console whose 32 KiB program ROM holds `program` at 0x8000, with the
/// reset vector at 0x8000 and the IRQ/BRK vector at 0x9000; work RAM first on the bus.
fn console(program: &[u8]) -> DualBus {
    let mut rom = vec![0x4E, 0x45, 0x53, 0x1A, 2, 1, 0, 0];
    rom.resize(16, 0);
    let mut prg = vec![0xEAu8; 32768];
    prg[..program.len()].copy_from_slice(program);
    prg[0x1000] = 0xEA;
    prg[0x7FFC] = 0x00; // reset vector low
    prg[0x7FFD] = 0x80; // reset vector high
    prg[0x7FFE] = 0x00; // IRQ/BRK vector low
    prg[0x7FFF] = 0x90; // IRQ/BRK vector high
    rom.extend_from_slice(&prg);
    rom.extend(std::iter::repeat(0).take(8192));
    let cart = Cartrige::load_rom(&rom).unwrap();
    DualBus { devices: vec![Device::Ram(RAM::new()), Device::Cartrige(cart)] }
}

fn power_on(bus: &mut DualBus) -> Cpu6502 {
    let mut cpu = Cpu6502::new();
    for _ in 0..7 {
        cpu.tick(bus);
    }
    cpu
}

#[test]
fn new_cpu_state() {
    let cpu = Cpu6502::new();
    assert_eq!(cpu.pc(), 0);
    assert_eq!(cpu.sp(), 0xFD);
    assert_eq!(cpu.a(), 0);
    assert_eq!(cpu.flags(), 0x04);
    assert_eq!(cpu.t_state(), 1);
    assert_eq!(cpu.current_opcode(), 0xFF);
}

#[test]
fn power_on_jumps_through_reset_vector() {
    let mut bus = console(&[0xA9, 0x42]);
    let cpu = power_on(&mut bus);
    assert_eq!(cpu.pc(), 0x8001);
    assert_eq!(cpu.current_opcode(), 0xA9);
    assert_eq!(cpu.t_state(), 1);
    assert_eq!(cpu.sp(), 0xFA);
    assert_eq!(cpu.flags(), 0x04);
    // the pushes landed on the stack page
    assert_eq!(bus.abus_read(0x01FD), 0x00);
    assert_eq!(bus.abus_read(0x01FC), 0x01);
    assert_eq!(bus.abus_read(0x01FB), 0x24);
}

#[test]
fn lda_immediate_takes_two_cycles() {
    let mut bus = console(&[0xA9, 0x42, 0xEA]);
    let mut cpu = power_on(&mut bus);
    cpu.tick(&mut bus);
    assert_eq!(cpu.a(), 0x42);
    assert_eq!(cpu.pc(), 0x8002);
    assert_eq!(cpu.t_state(), 2);
    cpu.tick(&mut bus);
    assert_eq!(cpu.current_opcode(), 0xEA);
    assert_eq!(cpu.t_state(), 1);
    assert_eq!(cpu.pc(), 0x8003);
}

#[test]
fn lda_zero_page_and_absolute() {
    // LDA $10 ; LDA $8010 ; at 0x8010 the byte 0x99
    let mut program = vec![0xA5, 0x10, 0xAD, 0x10, 0x80];
    program.resize(0x11, 0xEA);
    program[0x10] = 0x99;
    let mut bus = console(&program);
    bus.abus_write(0x0010, 0x33);
    let mut cpu = power_on(&mut bus);
    for _ in 0..3 {
        cpu.tick(&mut bus);
    }
    assert_eq!(cpu.a(), 0x33);
    assert_eq!(cpu.current_opcode(), 0xAD);
    for _ in 0..4 {
        cpu.tick(&mut bus);
    }
    assert_eq!(cpu.a(), 0x99);
    assert_eq!(cpu.t_state(), 1);
}

#[test]
fn lda_absolute_x_page_cross_costs_a_cycle() {
    // LDA $80FF,X with X = 0: no crossing, 4 cycles
    let mut program = vec![0xBD, 0xFF, 0x80];
    program.resize(0x100, 0xEA);
    program[0xFF] = 0x5C;
    let mut bus = console(&program);
    let mut cpu = power_on(&mut bus);
    for _ in 0..4 {
        cpu.tick(&mut bus);
    }
    assert_eq!(cpu.a(), 0x5C);
    assert_eq!(cpu.t_state(), 1);
    assert_eq!(cpu.current_opcode(), 0xEA);
}

#[test]
fn branch_taken_and_not_taken() {
    // flags after reset: I set, Z clear -> BNE taken, BEQ not taken
    // 0x8000: BEQ +5 (not taken) ; 0x8002: BNE +2 -> 0x8006
    let mut program = vec![0xF0, 0x05, 0xD0, 0x02];
    program.resize(8, 0xEA);
    program[6] = 0xA9;
    program[7] = 0x01;
    let mut bus = console(&program);
    let mut cpu = power_on(&mut bus);
    // BEQ not taken: 2 cycles
    cpu.tick(&mut bus);
    cpu.tick(&mut bus);
    assert_eq!(cpu.t_state(), 1);
    assert_eq!(cpu.current_opcode(), 0xD0);
    assert_eq!(cpu.pc(), 0x8003);
    // BNE taken, same page: 3 cycles
    cpu.tick(&mut bus);
    cpu.tick(&mut bus);
    assert_eq!(cpu.pc(), 0x8006);
    assert_eq!(cpu.t_state(), 3);
    cpu.tick(&mut bus);
    assert_eq!(cpu.t_state(), 1);
    assert_eq!(cpu.current_opcode(), 0xA9);
}

#[test]
fn branch_backwards() {
    // 0x8000: NOP ; 0x8001: BNE -3 -> 0x8000
    let program = vec![0xEA, 0xD0, 0xFD];
    let mut bus = console(&program);
    let mut cpu = power_on(&mut bus);
    cpu.tick(&mut bus); // NOP's nop cycle
    cpu.tick(&mut bus); // fetch BNE
    assert_eq!(cpu.current_opcode(), 0xD0);
    cpu.tick(&mut bus);
    cpu.tick(&mut bus);
    assert_eq!(cpu.pc(), 0x8000);
}

#[test]
fn brk_jumps_through_irq_vector() {
    // 0x8000: BRK
    let program = vec![0x00, 0x00];
    let mut bus = console(&program);
    let mut cpu = power_on(&mut bus);
    assert_eq!(cpu.current_opcode(), 0x00);
    for _ in 0..7 {
        cpu.tick(&mut bus);
    }
    assert_eq!(cpu.pc(), 0x9001);
    assert_eq!(cpu.current_opcode(), 0xEA);
    assert_eq!(cpu.sp(), 0xF7);
    // BRK pushed the flags with the B bit set
    assert_eq!(bus.abus_read(0x01F8), 0x34);
}

#[test]
fn reset_request_runs_reset_sequence() {
    let program = vec![0xEA, 0xEA, 0xEA];
    let mut bus = console(&program);
    let mut cpu = power_on(&mut bus);
    cpu.reset();
    assert_eq!(cpu.pc(), 0x8001);
    cpu.tick(&mut bus); // NOP's nop cycle
    cpu.tick(&mut bus); // fetch: replaced by BRK
    assert_eq!(cpu.current_opcode(), 0x00);
    for _ in 0..7 {
        cpu.tick(&mut bus);
    }
    assert_eq!(cpu.pc(), 0x8001);
    assert_eq!(cpu.current_opcode(), 0xEA);
}

#[test]
fn stale_page_cross_from_untaken_branch_costs_a_cycle() {
    // 0x8000: BEQ -128 (not taken; its target 0x7F82 is on another page)
    // 0x8002: LDA $8010,X
    let mut program = vec![0xF0, 0x80, 0xBD, 0x10, 0x80];
    program.resize(0x11, 0xEA);
    program[0x10] = 0x66;
    let mut bus = console(&program);
    let mut cpu = power_on(&mut bus);
    cpu.tick(&mut bus);
    cpu.tick(&mut bus);
    assert_eq!(cpu.current_opcode(), 0xBD);
    for _ in 0..4 {
        cpu.tick(&mut bus);
    }
    assert_eq!(cpu.a(), 0x66);
    assert_eq!(cpu.t_state(), 5);
    cpu.tick(&mut bus);
    assert_eq!(cpu.t_state(), 1);
    assert_eq!(cpu.current_opcode(), 0xEA);
}

#[test]
fn unimplemented_opcode_runs_as_brk_sequence_start() {
    // 0x02 is not implemented: it is decoded as BRK; with a 0 byte after it the
    // BRK event is raised and the sequence jumps through the IRQ/BRK vector
    let program = vec![0x02, 0x00];
    let mut bus = console(&program);
    let mut cpu = power_on(&mut bus);
    assert_eq!(cpu.current_opcode(), 0x02);
    for _ in 0..7 {
        cpu.tick(&mut bus);
    }
    assert_eq!(cpu.pc(), 0x9001);
}

#[test]
fn next_access_and_tick_precondition_checks() {
    let mut bus = console(&[0xEA]);
    let mut cpu = Cpu6502::new();
    assert!(cpu.tick_is_defined());
    assert!(matches!(cpu.next_access(), BusAccess::Read(0x0000)));
    cpu.tick(&mut bus);
    assert!(matches!(cpu.next_access(), BusAccess::Write(0x01FD, 0x00)));
    assert!(bus.abus_writable(0x01FD));
    cpu.tick(&mut bus);
    assert!(matches!(cpu.next_access(), BusAccess::Write(0x01FC, 0x01)));
    cpu.tick(&mut bus);
    assert!(matches!(cpu.next_access(), BusAccess::Write(0x01FB, 0x24)));
    cpu.tick(&mut bus);
    assert!(matches!(cpu.next_access(), BusAccess::Read(0xFFFC)));
    cpu.tick(&mut bus);
    assert!(matches!(cpu.next_access(), BusAccess::Read(0xFFFD)));
    cpu.tick(&mut bus);
    assert!(matches!(cpu.next_access(), BusAccess::Read(0x8000)));
    cpu.tick(&mut bus);
    // NOP: an idle cycle, then the fetch
    assert!(matches!(cpu.next_access(), BusAccess::Idle));
    assert!(cpu.tick_is_defined());
}

#[test]
fn unimplemented_branch_is_not_defined() {
    // BVC (0x50) decodes as a branch the CPU does not implement
    let mut bus = console(&[0x50, 0x00]);
    let mut cpu = power_on(&mut bus);
    assert_eq!(cpu.current_opcode(), 0x50);
    assert!(cpu.tick_is_defined());
    cpu.tick(&mut bus);
    assert!(!cpu.tick_is_defined());
}

#[test]
fn lda_zero_page_x_and_absolute_y_timing() {
    // LDA $10,X ; LDA $8020,Y (X = Y = 0)
    let mut program = vec![0xB5, 0x10, 0xB9, 0x20, 0x80];
    program.resize(0x21, 0xEA);
    program[0x20] = 0x77;
    let mut bus = console(&program);
    bus.abus_write(0x0010, 0x11);
    let mut cpu = power_on(&mut bus);
    for _ in 0..3 {
        cpu.tick(&mut bus);
    }
    assert_eq!(cpu.a(), 0x11);
    assert_eq!(cpu.t_state(), 4);
    cpu.tick(&mut bus);
    assert_eq!(cpu.t_state(), 1);
    assert_eq!(cpu.current_opcode(), 0xB9);
    for _ in 0..4 {
        cpu.tick(&mut bus);
    }
    assert_eq!(cpu.a(), 0x77);
    assert_eq!(cpu.t_state(), 1);
    assert_eq!(cpu.current_opcode(), 0xEA);
}

#[test]
fn cartridge_prg_ram_window_not_writable_when_empty() {
    let bus = console(&[0xEA]);
    assert!(!bus.abus_writable(0x6000));
    assert!(bus.abus_writable(0x8000));
    assert!(bus.abus_writable(0x3000));
}

/// A console with only the cartridge on the bus, as `EmulState::init` builds it.
fn cartridge_only(program: &[u8]) -> DualBus {
    let mut rom = vec![0x4E, 0x45, 0x53, 0x1A, 2, 1, 0, 0];
    rom.resize(16, 0);
    let mut prg = vec![0xEAu8; 32768];
    prg[..program.len()].copy_from_slice(program);
    prg[0x7FFC] = 0x00;
    prg[0x7FFD] = 0x80;
    rom.extend_from_slice(&prg);
    rom.extend(std::iter::repeat(0).take(8192));
    DualBus { devices: vec![Device::Cartrige(Cartrige::load_rom(&rom).unwrap())] }
}

#[test]
fn power_on_then_lda_immediate_on_cartridge_only_bus() {
    let mut bus = cartridge_only(&[0xA9, 0x42]);
    let mut cpu = Cpu6502::new();
    for _ in 0..7 {
        cpu.tick(&mut bus);
    }
    assert_eq!(cpu.pc(), 0x8001);
    assert_eq!(cpu.sp(), 0xFA);
    assert_eq!(cpu.flags(), 0x04);
    assert_eq!(cpu.a(), 0);
    assert_eq!(cpu.current_opcode(), 0xA9);
    assert_eq!(cpu.t_state(), 1);
    cpu.tick(&mut bus);
    cpu.tick(&mut bus);
    assert_eq!(cpu.a(), 0x42);
    assert_eq!(cpu.pc(), 0x8003);
    assert_eq!(cpu.current_opcode(), 0xEA);
    assert_eq!(cpu.t_state(), 1);
}

#[test]
fn taken_branch_then_lda_at_target() {
    let mut bus = cartridge_only(&[0xD0, 0x02, 0xEA, 0xEA, 0xA9, 0x07]);
    let mut cpu = Cpu6502::new();
    for _ in 0..10 {
        cpu.tick(&mut bus);
    }
    assert_eq!(cpu.pc(), 0x8005);
    assert_eq!(cpu.current_opcode(), 0xA9);
    assert_eq!(cpu.t_state(), 1);
    cpu.tick(&mut bus);
    assert_eq!(cpu.a(), 0x07);
    assert_eq!(cpu.pc(), 0x8006);
}
