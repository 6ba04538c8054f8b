use vstd::prelude::*;
use crate::bus::DualBus;

verus! {

/// A pending CPU event. Since the emulator is meant to be cycle accurate, the
/// reset/IRQ/NMI behaviour happens after the current cycle.
#[derive(Clone, Copy)]
pub enum CpuEvent {
    NoEvent,
    Reset,
    IRQ,
    NMI,
    BRK,
}

/// The cycle-by-cycle steps (micro-ops) that instructions are made of.
#[derive(Clone, Copy)]
pub enum MicroOp {
    Nop,
    /// fetch the next opcode (or swallow one cycle of BRK)
    Yeild,
    AmodeZpg,
    AmodeAddXZp,
    AmodeRel,
    AmodeAbsLoadH,
    AmodeAbsLoadL,
    AmodeAbsLoadLAddX,
    AmodeAbsLoadLAddY,
    AmodeLoadVal,
    LoadAImm,
    LoadAMem,
    PushPch,
    PushPcl,
    PushFlags,
    FetchPch,
    FetchPcl,
    Branch,
    PageCrossPenalty,
}

/// The instructions the CPU knows; each is a fixed list of seven micro-ops.
#[derive(Clone, Copy)]
pub enum CpuInstruction {
    PowerOn,
    BrkImp,
    NopImp,
    BxxRel,
    LdaImm,
    LdaZpg,
    LdaZpx,
    LdaAbs,
    LdaAbx,
    LdaAby,
}

/// The micro-ops of each instruction, one per cycle.
pub open spec fn instr_cycles(instr: CpuInstruction) -> Seq<MicroOp> {
    match instr {
        CpuInstruction::PowerOn | CpuInstruction::BrkImp => seq![
            MicroOp::Yeild,
            MicroOp::PushPch,
            MicroOp::PushPcl,
            MicroOp::PushFlags,
            MicroOp::FetchPcl,
            MicroOp::FetchPch,
            MicroOp::Yeild,
        ],
        CpuInstruction::NopImp => seq![
            MicroOp::Nop,
            MicroOp::Yeild,
            MicroOp::Yeild,
            MicroOp::Yeild,
            MicroOp::Yeild,
            MicroOp::Yeild,
            MicroOp::Yeild,
        ],
        // all branch instructions have the same flow
        CpuInstruction::BxxRel => seq![
            MicroOp::AmodeRel,
            MicroOp::Branch,
            MicroOp::PageCrossPenalty,
            MicroOp::Yeild,
            MicroOp::Yeild,
            MicroOp::Yeild,
            MicroOp::Yeild,
        ],
        CpuInstruction::LdaImm => seq![
            MicroOp::LoadAImm,
            MicroOp::Yeild,
            MicroOp::Yeild,
            MicroOp::Yeild,
            MicroOp::Yeild,
            MicroOp::Yeild,
            MicroOp::Yeild,
        ],
        CpuInstruction::LdaZpg => seq![
            MicroOp::AmodeZpg,
            MicroOp::LoadAMem,
            MicroOp::Yeild,
            MicroOp::Yeild,
            MicroOp::Yeild,
            MicroOp::Yeild,
            MicroOp::Yeild,
        ],
        CpuInstruction::LdaZpx => seq![
            MicroOp::AmodeZpg,
            MicroOp::AmodeAddXZp,
            MicroOp::LoadAMem,
            MicroOp::Yeild,
            MicroOp::Yeild,
            MicroOp::Yeild,
            MicroOp::Yeild,
        ],
        CpuInstruction::LdaAbs => seq![
            MicroOp::AmodeAbsLoadL,
            MicroOp::AmodeAbsLoadH,
            MicroOp::LoadAMem,
            MicroOp::Yeild,
            MicroOp::Yeild,
            MicroOp::Yeild,
            MicroOp::Yeild,
        ],
        CpuInstruction::LdaAbx => seq![
            MicroOp::AmodeAbsLoadLAddX,
            MicroOp::AmodeAbsLoadH,
            MicroOp::LoadAMem,
            MicroOp::PageCrossPenalty,
            MicroOp::Yeild,
            MicroOp::Yeild,
            MicroOp::Yeild,
        ],
        CpuInstruction::LdaAby => seq![
            MicroOp::AmodeAbsLoadLAddY,
            MicroOp::AmodeAbsLoadH,
            MicroOp::LoadAMem,
            MicroOp::PageCrossPenalty,
            MicroOp::Yeild,
            MicroOp::Yeild,
            MicroOp::Yeild,
        ],
    }
}

fn cycles(instr: CpuInstruction) -> (c: [MicroOp; 7])
    ensures
        c@ == instr_cycles(instr),
{
    let c = match instr {
        CpuInstruction::PowerOn | CpuInstruction::BrkImp => [
            MicroOp::Yeild,
            MicroOp::PushPch,
            MicroOp::PushPcl,
            MicroOp::PushFlags,
            MicroOp::FetchPcl,
            MicroOp::FetchPch,
            MicroOp::Yeild,
        ],
        CpuInstruction::NopImp => [
            MicroOp::Nop,
            MicroOp::Yeild,
            MicroOp::Yeild,
            MicroOp::Yeild,
            MicroOp::Yeild,
            MicroOp::Yeild,
            MicroOp::Yeild,
        ],
        CpuInstruction::BxxRel => [
            MicroOp::AmodeRel,
            MicroOp::Branch,
            MicroOp::PageCrossPenalty,
            MicroOp::Yeild,
            MicroOp::Yeild,
            MicroOp::Yeild,
            MicroOp::Yeild,
        ],
        CpuInstruction::LdaImm => [
            MicroOp::LoadAImm,
            MicroOp::Yeild,
            MicroOp::Yeild,
            MicroOp::Yeild,
            MicroOp::Yeild,
            MicroOp::Yeild,
            MicroOp::Yeild,
        ],
        CpuInstruction::LdaZpg => [
            MicroOp::AmodeZpg,
            MicroOp::LoadAMem,
            MicroOp::Yeild,
            MicroOp::Yeild,
            MicroOp::Yeild,
            MicroOp::Yeild,
            MicroOp::Yeild,
        ],
        CpuInstruction::LdaZpx => [
            MicroOp::AmodeZpg,
            MicroOp::AmodeAddXZp,
            MicroOp::LoadAMem,
            MicroOp::Yeild,
            MicroOp::Yeild,
            MicroOp::Yeild,
            MicroOp::Yeild,
        ],
        CpuInstruction::LdaAbs => [
            MicroOp::AmodeAbsLoadL,
            MicroOp::AmodeAbsLoadH,
            MicroOp::LoadAMem,
            MicroOp::Yeild,
            MicroOp::Yeild,
            MicroOp::Yeild,
            MicroOp::Yeild,
        ],
        CpuInstruction::LdaAbx => [
            MicroOp::AmodeAbsLoadLAddX,
            MicroOp::AmodeAbsLoadH,
            MicroOp::LoadAMem,
            MicroOp::PageCrossPenalty,
            MicroOp::Yeild,
            MicroOp::Yeild,
            MicroOp::Yeild,
        ],
        CpuInstruction::LdaAby => [
            MicroOp::AmodeAbsLoadLAddY,
            MicroOp::AmodeAbsLoadH,
            MicroOp::LoadAMem,
            MicroOp::PageCrossPenalty,
            MicroOp::Yeild,
            MicroOp::Yeild,
            MicroOp::Yeild,
        ],
    };
    assert(c@ =~= instr_cycles(instr));
    c
}

/// The opcodes of the six conditional branches the CPU implements
/// (BPL, BMI, BCC, BCS, BNE, BEQ).
pub open spec fn is_implemented_branch(opcode: u8) -> bool {
    opcode == 0x10 || opcode == 0x30 || opcode == 0x90 || opcode == 0xB0 || opcode == 0xD0
        || opcode == 0xF0
}

/// The instruction an opcode selects; every opcode not implemented yet runs as BRK.
pub open spec fn decode(opcode: u8) -> CpuInstruction {
    if opcode == 0x10 || opcode == 0x30 || opcode == 0x50 || opcode == 0x70 || opcode == 0x90
        || opcode == 0xB0 || opcode == 0xD0 || opcode == 0xF0 {
        CpuInstruction::BxxRel
    } else if opcode == 0xA5 {
        CpuInstruction::LdaZpg
    } else if opcode == 0xA9 {
        CpuInstruction::LdaImm
    } else if opcode == 0xAD {
        CpuInstruction::LdaAbs
    } else if opcode == 0xB5 {
        CpuInstruction::LdaZpx
    } else if opcode == 0xB9 {
        CpuInstruction::LdaAby
    } else if opcode == 0xBD {
        CpuInstruction::LdaAbx
    } else if opcode == 0xEA {
        CpuInstruction::NopImp
    } else {
        CpuInstruction::BrkImp
    }
}

fn instr_table(opcode: u8) -> (r: CpuInstruction)
    ensures
        r == decode(opcode),
{
    match opcode {
        0x10 | 0x30 | 0x50 | 0x70 | 0x90 | 0xB0 | 0xD0 | 0xF0 => CpuInstruction::BxxRel,
        0xA5 => CpuInstruction::LdaZpg,
        0xA9 => CpuInstruction::LdaImm,
        0xAD => CpuInstruction::LdaAbs,
        0xB5 => CpuInstruction::LdaZpx,
        0xB9 => CpuInstruction::LdaAby,
        0xBD => CpuInstruction::LdaAbx,
        0xEA => CpuInstruction::NopImp,
        _ => CpuInstruction::BrkImp,
    }
}

/// What one cycle does on the A bus.
#[derive(Clone, Copy, Debug)]
pub enum BusAccess {
    Idle,
    Read(u16),
    Write(u16, u8),
}

/// The stack lives in page one.
pub open spec fn stack_addr(sp: u8) -> u16 {
    (0x100 + sp) as u16
}

/// Address of the high byte of the vector an event jumps through.
pub open spec fn vector_hi(event: CpuEvent) -> u16 {
    match event {
        CpuEvent::BRK | CpuEvent::IRQ => 0xFFFF,
        CpuEvent::Reset => 0xFFFD,
        CpuEvent::NMI => 0xFFFB,
        CpuEvent::NoEvent => 0,
    }
}

/// Address of the low byte of the vector an event jumps through.
pub open spec fn vector_lo(event: CpuEvent) -> u16 {
    match event {
        CpuEvent::BRK | CpuEvent::IRQ => 0xFFFE,
        CpuEvent::Reset => 0xFFFC,
        CpuEvent::NMI => 0xFFFA,
        CpuEvent::NoEvent => 0,
    }
}

/// Target of a relative branch: `pc` plus the offset byte read as a signed number,
/// modulo 64 KiB.
pub open spec fn branch_target(pc: u16, offset: u8) -> u16 {
    if offset < 0x80 {
        ((pc + offset) % 0x10000) as u16
    } else {
        ((pc + offset - 0x100) % 0x10000) as u16
    }
}

/// Whether a branch opcode's condition holds for the status flags
/// (N is bit 7, Z bit 1, C bit 0).
pub open spec fn branch_condition(opcode: u8, flags: u8) -> bool {
    if opcode == 0x10 {
        flags & 0x80 == 0  // BPL

    } else if opcode == 0x30 {
        flags & 0x80 != 0  // BMI

    } else if opcode == 0x90 {
        flags & 0x01 == 0  // BCC

    } else if opcode == 0xB0 {
        flags & 0x01 != 0  // BCS

    } else if opcode == 0xD0 {
        flags & 0x02 == 0  // BNE

    } else {
        flags & 0x02 != 0  // BEQ

    }
}

/// The main CPU device.
pub struct Cpu6502 {
    pc: u16,  // program counter
    sp: u8,  // stack pointer
    a: u8,  // accumulator
    x: u8,  // X register
    y: u8,  // Y register
    flags: u8,
    current_instr: CpuInstruction,  // currently fetched instruction
    current_opcode: u8,
    t_state: u8,  // the current cycle it's on, 1-indexed
    cpu_event: CpuEvent,
    page_crossed: bool,
    amode_addr: u16,
    amode_val: u8,
}

impl Cpu6502 {
    /// The program counter.
    pub closed spec fn spec_pc(&self) -> u16 {
        self.pc
    }

    /// The stack pointer.
    pub closed spec fn spec_sp(&self) -> u8 {
        self.sp
    }

    /// The accumulator.
    pub closed spec fn spec_a(&self) -> u8 {
        self.a
    }

    /// The X register.
    pub closed spec fn spec_x(&self) -> u8 {
        self.x
    }

    /// The Y register.
    pub closed spec fn spec_y(&self) -> u8 {
        self.y
    }

    /// The status flags.
    pub closed spec fn spec_flags(&self) -> u8 {
        self.flags
    }

    /// The cycle of the current instruction the next tick runs (1 to 7).
    pub closed spec fn cycle(&self) -> u8 {
        self.t_state
    }

    /// The opcode of the current instruction.
    pub closed spec fn opcode(&self) -> u8 {
        self.current_opcode
    }

    /// The instruction being run.
    pub closed spec fn instruction(&self) -> CpuInstruction {
        self.current_instr
    }

    /// The pending event.
    pub closed spec fn event(&self) -> CpuEvent {
        self.cpu_event
    }

    /// The address the current instruction's addressing mode computed.
    pub closed spec fn operand_addr(&self) -> u16 {
        self.amode_addr
    }

    /// A page crossing is recorded and not yet paid for.
    pub closed spec fn page_cross_pending(&self) -> bool {
        self.page_crossed
    }

    /// The state at power-on.
    pub closed spec fn power_on() -> Self {
        Cpu6502 {
            pc: 0,
            sp: 0xFD,
            a: 0,
            x: 0,
            y: 0,
            flags: 0x4,
            current_instr: CpuInstruction::PowerOn,
            current_opcode: 0xFF,
            t_state: 1,
            cpu_event: CpuEvent::Reset,
            page_crossed: false,
            amode_addr: 0x0000,
            amode_val: 0x00,
        }
    }

    /// The state is one the CPU can be in: the cycle counter is within the seven
    /// cycles of an instruction, and the instruction is the one the opcode selects
    /// (or the power-on sequence).
    pub closed spec fn wf(&self) -> bool {
        &&& 1 <= self.t_state <= 7
        &&& (self.current_instr == decode(self.current_opcode) || self.current_instr
            == CpuInstruction::PowerOn)
    }

    /// The micro-op the next tick runs.
    pub closed spec fn current_mop(&self) -> MicroOp {
        instr_cycles(self.current_instr)[self.t_state - 1]
    }

    /// The branch of the current instruction is taken.
    pub closed spec fn branch_taken(&self) -> bool {
        branch_condition(self.current_opcode, self.flags)
    }

    /// The byte that the next push writes.
    pub closed spec fn pushed_flags(&self) -> u8 {
        match self.cpu_event {
            CpuEvent::BRK => self.flags | 0x30,
            _ => self.flags | 0x20,
        }
    }

    /// What the next tick does on the A bus.
    pub closed spec fn bus_access(&self) -> BusAccess {
        match self.current_mop() {
            MicroOp::Nop | MicroOp::AmodeAddXZp => BusAccess::Idle,
            MicroOp::Yeild | MicroOp::AmodeZpg | MicroOp::AmodeRel | MicroOp::AmodeAbsLoadH
            | MicroOp::AmodeAbsLoadL | MicroOp::AmodeAbsLoadLAddX | MicroOp::AmodeAbsLoadLAddY
            | MicroOp::LoadAImm => BusAccess::Read(self.pc),
            MicroOp::AmodeLoadVal | MicroOp::LoadAMem => BusAccess::Read(self.amode_addr),
            MicroOp::PushPch => BusAccess::Write(stack_addr(self.sp), (self.pc / 0x100) as u8),
            MicroOp::PushPcl => BusAccess::Write(stack_addr(self.sp), (self.pc % 0x100) as u8),
            MicroOp::PushFlags => BusAccess::Write(stack_addr(self.sp), self.pushed_flags()),
            MicroOp::FetchPch => BusAccess::Read(vector_hi(self.cpu_event)),
            MicroOp::FetchPcl => BusAccess::Read(vector_lo(self.cpu_event)),
            MicroOp::Branch => if self.branch_taken() {
                BusAccess::Idle
            } else {
                BusAccess::Read(self.pc)
            },
            MicroOp::PageCrossPenalty => if self.page_crossed {
                BusAccess::Idle
            } else {
                BusAccess::Read(self.pc)
            },
        }
    }

    /// The next tick is defined: a vector fetch needs a pending event, and a
    /// branch one of the implemented branch opcodes.
    pub closed spec fn tick_defined(&self) -> bool {
        match self.current_mop() {
            MicroOp::FetchPch | MicroOp::FetchPcl => !(self.cpu_event is NoEvent),
            MicroOp::Branch => is_implemented_branch(self.current_opcode),
            _ => true,
        }
    }

    /// The opcode fetch: `byte` is what the bus gave at `pc`. While an event is
    /// pending the fetched opcode is replaced by BRK (0); a fetched 0 raises BRK.
    /// On the first cycle of BRK it only swallows the byte.
    pub closed spec fn after_yield(self, byte: u8) -> Self {
        let fetched: u8 = if self.cpu_event is NoEvent {
            byte
        } else {
            0
        };
        let event = if (self.cpu_event is NoEvent) && byte == 0 {
            CpuEvent::BRK
        } else {
            self.cpu_event
        };
        let s = Cpu6502 { pc: self.pc.wrapping_add(1), cpu_event: event, ..self };
        if self.t_state == 1 {
            s
        } else {
            Cpu6502 {
                current_opcode: fetched,
                current_instr: decode(fetched),
                t_state: 0,
                ..s
            }
        }
    }

    /// The effect of micro-op `op`, where `byte` is what the bus gave for the read
    /// the micro-op makes (if it makes one).
    pub closed spec fn mop_effect(self, op: MicroOp, byte: u8) -> Self {
        match op {
            MicroOp::Nop => self,
            MicroOp::Yeild => self.after_yield(byte),
            MicroOp::AmodeZpg => Cpu6502 {
                amode_addr: byte as u16,
                pc: self.pc.wrapping_add(1),
                ..self
            },
            MicroOp::AmodeAddXZp => Cpu6502 {
                amode_addr: ((self.amode_addr + self.x) % 0x100) as u16,
                ..self
            },
            MicroOp::AmodeRel => {
                let pc = self.pc.wrapping_add(1);
                let target = branch_target(pc, byte);
                Cpu6502 {
                    pc: pc,
                    amode_addr: target,
                    page_crossed: pc / 0x100 != target / 0x100,
                    ..self
                }
            },
            MicroOp::AmodeAbsLoadH => Cpu6502 {
                page_crossed: if self.amode_addr > 0xFF {
                    true
                } else {
                    self.page_crossed
                },
                amode_addr: ((self.amode_addr + byte * 0x100) % 0x10000) as u16,
                pc: self.pc.wrapping_add(1),
                ..self
            },
            MicroOp::AmodeAbsLoadL => Cpu6502 {
                amode_addr: byte as u16,
                pc: self.pc.wrapping_add(1),
                ..self
            },
            MicroOp::AmodeAbsLoadLAddX => Cpu6502 {
                amode_addr: (byte + self.x) as u16,
                pc: self.pc.wrapping_add(1),
                ..self
            },
            MicroOp::AmodeAbsLoadLAddY => Cpu6502 {
                amode_addr: (byte + self.y) as u16,
                pc: self.pc.wrapping_add(1),
                ..self
            },
            MicroOp::AmodeLoadVal => Cpu6502 { amode_val: byte, ..self },
            MicroOp::LoadAImm => Cpu6502 { a: byte, pc: self.pc.wrapping_add(1), ..self },
            MicroOp::LoadAMem => Cpu6502 { a: byte, ..self },
            MicroOp::PushPch | MicroOp::PushPcl | MicroOp::PushFlags => Cpu6502 {
                sp: self.sp.wrapping_sub(1),
                ..self
            },
            MicroOp::FetchPch => Cpu6502 {
                pc: (byte * 0x100 + self.pc % 0x100) as u16,
                cpu_event: CpuEvent::NoEvent,
                ..self
            },
            MicroOp::FetchPcl => Cpu6502 {
                pc: ((self.pc / 0x100) * 0x100 + byte) as u16,
                flags: self.flags | 0x04,
                ..self
            },
            MicroOp::Branch => if self.branch_taken() {
                Cpu6502 { pc: self.amode_addr, ..self }
            } else {
                self.after_yield(byte)
            },
            MicroOp::PageCrossPenalty => if self.page_crossed {
                Cpu6502 { page_crossed: false, ..self }
            } else {
                self.after_yield(byte)
            },
        }
    }

    /// The same state with a reset pending.
    pub closed spec fn with_reset_pending(self) -> Self {
        Cpu6502 { cpu_event: CpuEvent::Reset, ..self }
    }

    /// The state after one tick: the current micro-op runs, then the cycle counter advances.
    pub closed spec fn after_tick(self, byte: u8) -> Self {
        let s = self.mop_effect(self.current_mop(), byte);
        Cpu6502 { t_state: (s.t_state + 1) as u8, ..s }
    }
}

// MICRO OPS

proof fn lemma_branch_target(pc: u16, rel: u8, target: u16)
    requires
        rel < 0x80 ==> target == pc.wrapping_add(rel as u16),
        rel >= 0x80 ==> target == pc.wrapping_sub((0x100 - rel) as u16),
    ensures
        target == branch_target(pc, rel),
{
    if rel < 0x80 {
        if pc + rel > 0xFFFF {
            assert((pc + rel) % 0x10000 == pc + rel - 0x10000);
        } else {
            assert((pc + rel) % 0x10000 == pc + rel);
        }
    } else {
        if pc + rel - 0x100 < 0 {
            assert((pc + rel - 0x100) % 0x10000 == pc + rel - 0x100 + 0x10000);
        } else {
            assert((pc + rel - 0x100) % 0x10000 == pc + rel - 0x100);
        }
    }
}

fn push(cpu: &mut Cpu6502, bus: &mut DualBus, val: u8)
    requires
        old(bus).abus_write_ok(stack_addr(old(cpu).sp)),
    ensures
        old(bus).abus_wrote(stack_addr(old(cpu).sp), val, *final(bus)),
        *final(cpu) == (Cpu6502 { sp: old(cpu).sp.wrapping_sub(1), ..*old(cpu) }),
{
    let sp = cpu.sp;
    proof {
        assert(0x0100u16 | (sp as u16) == (0x100 + sp) as u16) by (bit_vector);
    }
    bus.abus_write(0x0100 | cpu.sp as u16, val);
    cpu.sp = cpu.sp.wrapping_sub(1);
}

fn mop_nop(cpu: &mut Cpu6502, bus: &mut DualBus)
    ensures
        *final(cpu) == *old(cpu),
        *final(bus) == *old(bus),
{
}

fn mop_yeild(cpu: &mut Cpu6502, bus: &DualBus)
    requires
        bus.abus_read_ok(old(cpu).pc),
    ensures
        *final(cpu) == old(cpu).after_yield(bus.spec_abus_read(old(cpu).pc)),
{
    // always read opcode and increment the program counter
    let mut opcode = bus.abus_read(cpu.pc);
    cpu.pc = cpu.pc.wrapping_add(1);

    match cpu.cpu_event {
        CpuEvent::NoEvent => {
            if opcode == 0 {
                cpu.cpu_event = CpuEvent::BRK;  // supress the next pc
            }
        },
        _ => opcode = 0,  // BRK
    }

    if cpu.t_state == 1 {
        return ;  // extra yeild in a BRK instruction, don't store anything
    }
    cpu.current_opcode = opcode;
    cpu.current_instr = instr_table(opcode);
    cpu.t_state = 0;  // T state 0 is this micro-op, it will get incremented afterwards
}

// addressing modes
fn mop_amode_zpg(cpu: &mut Cpu6502, bus: &DualBus)
    requires
        bus.abus_read_ok(old(cpu).pc),
    ensures
        *final(cpu) == old(cpu).mop_effect(MicroOp::AmodeZpg, bus.spec_abus_read(old(cpu).pc)),
{
    cpu.amode_addr = bus.abus_read(cpu.pc) as u16;
    cpu.pc = cpu.pc.wrapping_add(1);
}

fn mop_amode_add_x_zp(cpu: &mut Cpu6502)
    ensures
        *final(cpu) == old(cpu).mop_effect(MicroOp::AmodeAddXZp, 0),
{
    let a = cpu.amode_addr;
    let x = cpu.x;
    proof {
        assert(a.wrapping_add(x as u16) & 0xFF == ((a + x) % 0x100) as u16) by (bit_vector);
    }
    cpu.amode_addr = cpu.amode_addr.wrapping_add(cpu.x as u16) & 0xFF;
}

fn mop_amode_rel(cpu: &mut Cpu6502, bus: &DualBus)
    requires
        bus.abus_read_ok(old(cpu).pc),
    ensures
        *final(cpu) == old(cpu).mop_effect(MicroOp::AmodeRel, bus.spec_abus_read(old(cpu).pc)),
{
    let rel = bus.abus_read(cpu.pc);
    cpu.pc = cpu.pc.wrapping_add(1);
    let pc = cpu.pc;
    let target: u16 = if rel < 0x80 {
        pc.wrapping_add(rel as u16)
    } else {
        pc.wrapping_sub(0x100 - rel as u16)
    };
    proof {
        lemma_branch_target(pc, rel, target);
    }
    cpu.amode_addr = target;
    proof {
        assert(pc & 0xFF00 != target & 0xFF00 <==> pc / 0x100 != target / 0x100) by (bit_vector);
    }
    cpu.page_crossed = cpu.pc & 0xFF00 != cpu.amode_addr & 0xFF00;
}

fn mop_amode_abs_loadh(cpu: &mut Cpu6502, bus: &DualBus)
    requires
        bus.abus_read_ok(old(cpu).pc),
    ensures
        *final(cpu) == old(cpu).mop_effect(MicroOp::AmodeAbsLoadH, bus.spec_abus_read(old(cpu).pc)),
{
    let b = bus.abus_read(cpu.pc);
    let h = b as u16;
    if cpu.amode_addr > 0xFF {
        cpu.page_crossed = true;  // the higher byte is right, but the penalty still applies
    }
    let a = cpu.amode_addr;
    proof {
        assert(a.wrapping_add(h << 8) == ((a + b * 0x100) % 0x10000) as u16) by (bit_vector)
            requires
                h == b as u16,
        ;
    }
    // in case an a,x or a,y produced a low value higher than 0xFF
    cpu.amode_addr = cpu.amode_addr.wrapping_add(h << 8);
    cpu.pc = cpu.pc.wrapping_add(1);
}

fn mop_amode_abs_loadl(cpu: &mut Cpu6502, bus: &DualBus)
    requires
        bus.abus_read_ok(old(cpu).pc),
    ensures
        *final(cpu) == old(cpu).mop_effect(MicroOp::AmodeAbsLoadL, bus.spec_abus_read(old(cpu).pc)),
{
    let l = bus.abus_read(cpu.pc) as u16;
    cpu.amode_addr = l;
    cpu.pc = cpu.pc.wrapping_add(1);
}

fn mop_amode_abs_loadl_add_x(cpu: &mut Cpu6502, bus: &DualBus)
    requires
        bus.abus_read_ok(old(cpu).pc),
    ensures
        *final(cpu) == old(cpu).mop_effect(
            MicroOp::AmodeAbsLoadLAddX,
            bus.spec_abus_read(old(cpu).pc),
        ),
{
    let l = bus.abus_read(cpu.pc) as u16;
    cpu.amode_addr = l + cpu.x as u16;  // cannot overflow: at most 0xFF + 0xFF
    cpu.pc = cpu.pc.wrapping_add(1);
}

fn mop_amode_abs_loadl_add_y(cpu: &mut Cpu6502, bus: &DualBus)
    requires
        bus.abus_read_ok(old(cpu).pc),
    ensures
        *final(cpu) == old(cpu).mop_effect(
            MicroOp::AmodeAbsLoadLAddY,
            bus.spec_abus_read(old(cpu).pc),
        ),
{
    let l = bus.abus_read(cpu.pc) as u16;
    cpu.amode_addr = l + cpu.y as u16;  // cannot overflow: at most 0xFF + 0xFF
    cpu.pc = cpu.pc.wrapping_add(1);
}

fn mop_amode_load_val(cpu: &mut Cpu6502, bus: &DualBus)
    requires
        bus.abus_read_ok(old(cpu).amode_addr),
    ensures
        *final(cpu) == old(cpu).mop_effect(
            MicroOp::AmodeLoadVal,
            bus.spec_abus_read(old(cpu).amode_addr),
        ),
{
    cpu.amode_val = bus.abus_read(cpu.amode_addr);
}

// work-doing micro-ops
fn mop_load_a_imm(cpu: &mut Cpu6502, bus: &DualBus)
    requires
        bus.abus_read_ok(old(cpu).pc),
    ensures
        *final(cpu) == old(cpu).mop_effect(MicroOp::LoadAImm, bus.spec_abus_read(old(cpu).pc)),
{
    cpu.a = bus.abus_read(cpu.pc);
    cpu.pc = cpu.pc.wrapping_add(1);
}

fn mop_load_a_mem(cpu: &mut Cpu6502, bus: &DualBus)
    requires
        bus.abus_read_ok(old(cpu).amode_addr),
    ensures
        *final(cpu) == old(cpu).mop_effect(
            MicroOp::LoadAMem,
            bus.spec_abus_read(old(cpu).amode_addr),
        ),
{
    cpu.a = bus.abus_read(cpu.amode_addr);
}

fn mop_push_pch(cpu: &mut Cpu6502, bus: &mut DualBus)
    requires
        old(bus).abus_write_ok(stack_addr(old(cpu).sp)),
    ensures
        old(bus).abus_wrote(stack_addr(old(cpu).sp), (old(cpu).pc / 0x100) as u8, *final(bus)),
        *final(cpu) == old(cpu).mop_effect(MicroOp::PushPch, 0),
{
    let pc = cpu.pc;
    proof {
        assert((pc >> 8) as u8 == (pc / 0x100) as u8) by (bit_vector);
    }
    let pch = (cpu.pc >> 8) as u8;
    push(cpu, bus, pch);
}

fn mop_push_pcl(cpu: &mut Cpu6502, bus: &mut DualBus)
    requires
        old(bus).abus_write_ok(stack_addr(old(cpu).sp)),
    ensures
        old(bus).abus_wrote(stack_addr(old(cpu).sp), (old(cpu).pc % 0x100) as u8, *final(bus)),
        *final(cpu) == old(cpu).mop_effect(MicroOp::PushPcl, 0),
{
    let pc = cpu.pc;
    proof {
        assert(pc as u8 == (pc % 0x100) as u8) by (bit_vector);
    }
    let pcl = cpu.pc as u8;
    push(cpu, bus, pcl);
}

fn mop_push_flags(cpu: &mut Cpu6502, bus: &mut DualBus)
    requires
        old(bus).abus_write_ok(stack_addr(old(cpu).sp)),
    ensures
        old(bus).abus_wrote(stack_addr(old(cpu).sp), old(cpu).pushed_flags(), *final(bus)),
        *final(cpu) == old(cpu).mop_effect(MicroOp::PushFlags, 0),
{
    let flags = match cpu.cpu_event {
        CpuEvent::BRK => cpu.flags | 0x30,
        _ => cpu.flags | 0x20,
    };

    push(cpu, bus, flags);
}

fn mop_fetch_pch(cpu: &mut Cpu6502, bus: &DualBus)
    requires
        !(old(cpu).cpu_event is NoEvent),
        bus.abus_read_ok(vector_hi(old(cpu).cpu_event)),
    ensures
        *final(cpu) == old(cpu).mop_effect(
            MicroOp::FetchPch,
            bus.spec_abus_read(vector_hi(old(cpu).cpu_event)),
        ),
{
    // this micro-op is exclusively for times when a CPU event is active
    let addr: u16 = match cpu.cpu_event {
        CpuEvent::BRK | CpuEvent::IRQ => 0xFFFF,
        CpuEvent::Reset => 0xFFFD,
        CpuEvent::NMI => 0xFFFB,
        CpuEvent::NoEvent => 0,
    };
    let b = bus.abus_read(addr);
    let pc = cpu.pc;
    proof {
        assert(((b as u16) << 8) | pc & 0xFF == (b * 0x100 + pc % 0x100) as u16) by (bit_vector);
    }
    cpu.pc = ((b as u16) << 8) | cpu.pc & 0xFF;
    cpu.cpu_event = CpuEvent::NoEvent;  // clear the CPU event as it has been handled
}

fn mop_fetch_pcl(cpu: &mut Cpu6502, bus: &DualBus)
    requires
        !(old(cpu).cpu_event is NoEvent),
        bus.abus_read_ok(vector_lo(old(cpu).cpu_event)),
    ensures
        *final(cpu) == old(cpu).mop_effect(
            MicroOp::FetchPcl,
            bus.spec_abus_read(vector_lo(old(cpu).cpu_event)),
        ),
{
    // this micro-op is exclusively for times when a CPU event is active
    let addr: u16 = match cpu.cpu_event {
        CpuEvent::BRK | CpuEvent::IRQ => 0xFFFE,
        CpuEvent::Reset => 0xFFFC,
        CpuEvent::NMI => 0xFFFA,
        CpuEvent::NoEvent => 0,
    };
    let b = bus.abus_read(addr);
    let pc = cpu.pc;
    proof {
        assert((b as u16) | pc & 0xFF00 == ((pc / 0x100) * 0x100 + b) as u16) by (bit_vector);
    }
    cpu.pc = (b as u16) | cpu.pc & 0xFF00;
    cpu.flags = cpu.flags | 0x04;  // set I flag
}

fn mop_branch(cpu: &mut Cpu6502, bus: &DualBus)
    requires
        is_implemented_branch(old(cpu).current_opcode),
        !old(cpu).branch_taken() ==> bus.abus_read_ok(old(cpu).pc),
    ensures
        *final(cpu) == old(cpu).mop_effect(MicroOp::Branch, bus.spec_abus_read(old(cpu).pc)),
{
    let should_branch = match cpu.current_opcode {
        0x10 => cpu.flags & 0x80 == 0,  // BPL
        0x30 => cpu.flags & 0x80 != 0,  // BMI
        0x90 => cpu.flags & 0x01 == 0,  // BCC
        0xB0 => cpu.flags & 0x01 != 0,  // BCS
        0xD0 => cpu.flags & 0x02 == 0,  // BNE
        0xF0 => cpu.flags & 0x02 != 0,  // BEQ
        _ => false,  // no other opcode runs this micro-op (see the precondition)
    };

    if should_branch {
        cpu.pc = cpu.amode_addr;
    } else {
        mop_yeild(cpu, bus);  // nullify this cycle
    }
}

fn mop_page_cross_penalty(cpu: &mut Cpu6502, bus: &DualBus)
    requires
        !old(cpu).page_crossed ==> bus.abus_read_ok(old(cpu).pc),
    ensures
        *final(cpu) == old(cpu).mop_effect(
            MicroOp::PageCrossPenalty,
            bus.spec_abus_read(old(cpu).pc),
        ),
{
    // if NO page boundary was crossed, nullify this cycle
    if !cpu.page_crossed {
        mop_yeild(cpu, bus);
    } else {
        cpu.page_crossed = false;
    }
}

/// The access a tick makes is defined on this bus.
pub open spec fn access_ok(bus: DualBus, access: BusAccess) -> bool {
    match access {
        BusAccess::Idle => true,
        BusAccess::Read(addr) => bus.abus_read_ok(addr),
        BusAccess::Write(addr, _) => bus.abus_write_ok(addr),
    }
}

/// The byte a tick gets from the bus: what a read gives, 0 for other accesses.
pub open spec fn tick_byte(cpu: Cpu6502, bus: DualBus) -> u8 {
    match cpu.bus_access() {
        BusAccess::Read(addr) => bus.spec_abus_read(addr),
        _ => 0,
    }
}

/// One tick: the CPU moves to `after_tick` of the byte it read, and the bus changes
/// only by the one write the tick makes (if it makes one).
pub open spec fn tick_step(pre: Cpu6502, pre_bus: DualBus, post: Cpu6502, post_bus: DualBus) -> bool {
    &&& post == pre.after_tick(tick_byte(pre, pre_bus))
    &&& match pre.bus_access() {
        BusAccess::Write(addr, val) => pre_bus.abus_wrote(addr, val, post_bus),
        _ => post_bus == pre_bus,
    }
}

/// Entry `i + 1` of the states follows from entry `i` by one tick.
pub open spec fn trace_step(cpus: Seq<Cpu6502>, buses: Seq<DualBus>, i: int) -> bool {
    tick_step(cpus[i], buses[i], cpus[i + 1], buses[i + 1])
}

/// `cpus` and `buses` are the states of the CPU and the bus over consecutive ticks.
pub open spec fn is_trace(cpus: Seq<Cpu6502>, buses: Seq<DualBus>) -> bool {
    &&& cpus.len() == buses.len()
    &&& forall|i: int| 0 <= i < cpus.len() - 1 ==> #[trigger] trace_step(cpus, buses, i)
}

/// Stack pointer, X, Y and the flags are the same in both states.
pub open spec fn keeps_registers(before: Cpu6502, after: Cpu6502) -> bool {
    &&& after.spec_sp() == before.spec_sp()
    &&& after.spec_x() == before.spec_x()
    &&& after.spec_y() == before.spec_y()
    &&& after.spec_flags() == before.spec_flags()
}

/// `cpu` is the state right after an opcode fetch that read `byte` while `event`
/// was pending: the first cycle of the instruction `byte` selects, or of BRK when
/// an event was pending; a fetched 0 raises BRK.
pub open spec fn just_fetched(cpu: Cpu6502, event: CpuEvent, byte: u8) -> bool {
    &&& cpu.wf()
    &&& cpu.tick_defined()
    &&& cpu.cycle() == 1
    &&& if event is NoEvent {
        &&& cpu.opcode() == byte
        &&& cpu.instruction() == decode(byte)
        &&& if byte == 0 {
            cpu.event() is BRK
        } else {
            cpu.event() is NoEvent
        }
    } else {
        &&& cpu.opcode() == 0
        &&& cpu.instruction() == CpuInstruction::BrkImp
        &&& cpu.event() == event
    }
}

/// Every instruction ends with an opcode fetch on its seventh cycle.
proof fn lemma_last_cycle_fetches(instr: CpuInstruction)
    ensures
        instr_cycles(instr).len() == 7,
        instr_cycles(instr)[6] == MicroOp::Yeild,
{
}

impl Cpu6502 {
    /// The CPU at power-on; it first runs the reset sequence.
    pub fn new() -> (r: Self)
        ensures
            r == Self::power_on(),
            r.wf(),
    {
        Self {
            pc: 0,
            sp: 0xFD,
            a: 0,
            x: 0,
            y: 0,
            flags: 0x4,
            current_instr: CpuInstruction::PowerOn,
            current_opcode: 0xFF,  // uninitialized
            t_state: 1,  // these states are 1-indexed
            cpu_event: CpuEvent::Reset,  // so it reads from the reset vector
            page_crossed: false,
            amode_addr: 0x0000,
            amode_val: 0x00,
        }
    }

    /// Requests a reset: it takes effect at the next opcode fetch.
    pub fn reset(&mut self)
        ensures
            *final(self) == old(self).with_reset_pending(),
            old(self).wf() ==> final(self).wf(),
    {
        self.cpu_event = CpuEvent::Reset;
    }

    /// Runs one cycle: the current micro-op of the current instruction, then the
    /// cycle counter advances.
    pub fn tick(&mut self, bus: &mut DualBus)
        requires
            old(self).wf(),
            old(self).tick_defined(),
            access_ok(*old(bus), old(self).bus_access()),
        ensures
            final(self).wf(),
            tick_step(*old(self), *old(bus), *final(self), *final(bus)),
    {
        proof {
            lemma_last_cycle_fetches(self.current_instr);
        }
        let op = cycles(self.current_instr)[(self.t_state - 1) as usize];
        match op {
            MicroOp::Nop => mop_nop(self, bus),
            MicroOp::Yeild => mop_yeild(self, bus),
            MicroOp::AmodeZpg => mop_amode_zpg(self, bus),
            MicroOp::AmodeAddXZp => mop_amode_add_x_zp(self),
            MicroOp::AmodeRel => mop_amode_rel(self, bus),
            MicroOp::AmodeAbsLoadH => mop_amode_abs_loadh(self, bus),
            MicroOp::AmodeAbsLoadL => mop_amode_abs_loadl(self, bus),
            MicroOp::AmodeAbsLoadLAddX => mop_amode_abs_loadl_add_x(self, bus),
            MicroOp::AmodeAbsLoadLAddY => mop_amode_abs_loadl_add_y(self, bus),
            MicroOp::AmodeLoadVal => mop_amode_load_val(self, bus),
            MicroOp::LoadAImm => mop_load_a_imm(self, bus),
            MicroOp::LoadAMem => mop_load_a_mem(self, bus),
            MicroOp::PushPch => mop_push_pch(self, bus),
            MicroOp::PushPcl => mop_push_pcl(self, bus),
            MicroOp::PushFlags => mop_push_flags(self, bus),
            MicroOp::FetchPch => mop_fetch_pch(self, bus),
            MicroOp::FetchPcl => mop_fetch_pcl(self, bus),
            MicroOp::Branch => mop_branch(self, bus),
            MicroOp::PageCrossPenalty => mop_page_cross_penalty(self, bus),
        }
        self.t_state += 1;
    }
}

impl Cpu6502 {
    /// The program counter.
    pub fn pc(&self) -> (r: u16)
        ensures
            r == self.spec_pc(),
    {
        self.pc
    }

    /// The stack pointer.
    pub fn sp(&self) -> (r: u8)
        ensures
            r == self.spec_sp(),
    {
        self.sp
    }

    /// The accumulator.
    pub fn a(&self) -> (r: u8)
        ensures
            r == self.spec_a(),
    {
        self.a
    }

    /// The status flags.
    pub fn flags(&self) -> (r: u8)
        ensures
            r == self.spec_flags(),
    {
        self.flags
    }

    /// The cycle of the current instruction that the next tick runs.
    pub fn t_state(&self) -> (r: u8)
        ensures
            r == self.cycle(),
    {
        self.t_state
    }

    /// The opcode of the current instruction.
    pub fn current_opcode(&self) -> (r: u8)
        ensures
            r == self.opcode(),
    {
        self.current_opcode
    }
}

/// Whether a branch opcode's condition holds, as `branch_condition` says.
fn branch_condition_holds(opcode: u8, flags: u8) -> (r: bool)
    ensures
        r == branch_condition(opcode, flags),
{
    if opcode == 0x10 {
        flags & 0x80 == 0
    } else if opcode == 0x30 {
        flags & 0x80 != 0
    } else if opcode == 0x90 {
        flags & 0x01 == 0
    } else if opcode == 0xB0 {
        flags & 0x01 != 0
    } else if opcode == 0xD0 {
        flags & 0x02 == 0
    } else {
        flags & 0x02 != 0
    }
}

impl Cpu6502 {
    /// Whether the next tick is defined (`tick_defined`), so that a caller can test
    /// that part of `tick`'s precondition.
    pub fn tick_is_defined(&self) -> (r: bool)
        requires
            self.wf(),
        ensures
            r == self.tick_defined(),
    {
        let op = cycles(self.current_instr)[(self.t_state - 1) as usize];
        match op {
            MicroOp::FetchPch | MicroOp::FetchPcl => match self.cpu_event {
                CpuEvent::NoEvent => false,
                _ => true,
            },
            MicroOp::Branch => {
                let o = self.current_opcode;
                o == 0x10 || o == 0x30 || o == 0x90 || o == 0xB0 || o == 0xD0 || o == 0xF0
            },
            _ => true,
        }
    }

    /// What the next tick will do on the A bus (`bus_access`), so that a caller can
    /// test the bus part of `tick`'s precondition.
    pub fn next_access(&self) -> (r: BusAccess)
        requires
            self.wf(),
        ensures
            r == self.bus_access(),
    {
        let op = cycles(self.current_instr)[(self.t_state - 1) as usize];
        let sp = self.sp;
        let pc = self.pc;
        proof {
            assert(0x0100u16 | (sp as u16) == (0x100 + sp) as u16) by (bit_vector);
            assert((pc >> 8) as u8 == (pc / 0x100) as u8) by (bit_vector);
            assert(pc as u8 == (pc % 0x100) as u8) by (bit_vector);
        }
        let stack = 0x0100 | sp as u16;
        match op {
            MicroOp::Nop | MicroOp::AmodeAddXZp => BusAccess::Idle,
            MicroOp::Yeild | MicroOp::AmodeZpg | MicroOp::AmodeRel | MicroOp::AmodeAbsLoadH
            | MicroOp::AmodeAbsLoadL | MicroOp::AmodeAbsLoadLAddX | MicroOp::AmodeAbsLoadLAddY
            | MicroOp::LoadAImm => BusAccess::Read(pc),
            MicroOp::AmodeLoadVal | MicroOp::LoadAMem => BusAccess::Read(self.amode_addr),
            MicroOp::PushPch => BusAccess::Write(stack, (pc >> 8) as u8),
            MicroOp::PushPcl => BusAccess::Write(stack, pc as u8),
            MicroOp::PushFlags => {
                let flags = match self.cpu_event {
                    CpuEvent::BRK => self.flags | 0x30,
                    _ => self.flags | 0x20,
                };
                BusAccess::Write(stack, flags)
            },
            MicroOp::FetchPch => BusAccess::Read(
                match self.cpu_event {
                    CpuEvent::BRK | CpuEvent::IRQ => 0xFFFF,
                    CpuEvent::Reset => 0xFFFD,
                    CpuEvent::NMI => 0xFFFB,
                    CpuEvent::NoEvent => 0,
                },
            ),
            MicroOp::FetchPcl => BusAccess::Read(
                match self.cpu_event {
                    CpuEvent::BRK | CpuEvent::IRQ => 0xFFFE,
                    CpuEvent::Reset => 0xFFFC,
                    CpuEvent::NMI => 0xFFFA,
                    CpuEvent::NoEvent => 0,
                },
            ),
            MicroOp::Branch => if branch_condition_holds(self.current_opcode, self.flags) {
                BusAccess::Idle
            } else {
                BusAccess::Read(pc)
            },
            MicroOp::PageCrossPenalty => if self.page_crossed {
                BusAccess::Idle
            } else {
                BusAccess::Read(pc)
            },
        }
    }
}

/// The power-on state: PC 0, SP 0xFD, A = X = Y = 0, flags 0x04 (I set), a reset
/// pending, on the first cycle of the power-on sequence.
pub proof fn lemma_power_on_state()
    ensures
        Cpu6502::power_on().wf(),
        Cpu6502::power_on().spec_pc() == 0,
        Cpu6502::power_on().spec_sp() == 0xFD,
        Cpu6502::power_on().spec_a() == 0,
        Cpu6502::power_on().spec_x() == 0,
        Cpu6502::power_on().spec_y() == 0,
        Cpu6502::power_on().spec_flags() == 0x04,
        Cpu6502::power_on().cycle() == 1,
        Cpu6502::power_on().event() == CpuEvent::Reset,
        Cpu6502::power_on().instruction() == CpuInstruction::PowerOn,
        Cpu6502::power_on().opcode() == 0xFF,
        !Cpu6502::power_on().page_cross_pending(),
        Cpu6502::power_on().operand_addr() == 0,
        Cpu6502::power_on().tick_defined(),
        Cpu6502::power_on().bus_access() == BusAccess::Read(0),
{
}

/// Requesting a reset changes only the pending event; registers, cycle and
/// instruction stay, and so does what the next tick does on the bus unless that
/// tick is a push of the flags or a vector fetch.
pub proof fn lemma_reset_pending_state(cpu: Cpu6502)
    ensures
        cpu.with_reset_pending().event() == CpuEvent::Reset,
        cpu.with_reset_pending().spec_pc() == cpu.spec_pc(),
        cpu.with_reset_pending().spec_sp() == cpu.spec_sp(),
        cpu.with_reset_pending().spec_a() == cpu.spec_a(),
        cpu.with_reset_pending().spec_x() == cpu.spec_x(),
        cpu.with_reset_pending().spec_y() == cpu.spec_y(),
        cpu.with_reset_pending().spec_flags() == cpu.spec_flags(),
        cpu.with_reset_pending().cycle() == cpu.cycle(),
        cpu.with_reset_pending().instruction() == cpu.instruction(),
        cpu.with_reset_pending().opcode() == cpu.opcode(),
        cpu.with_reset_pending().page_cross_pending() == cpu.page_cross_pending(),
        cpu.with_reset_pending().operand_addr() == cpu.operand_addr(),
        cpu.with_reset_pending().wf() == cpu.wf(),
{
}

/// A well-formed state is on one of the seven cycles of an instruction.
pub proof fn lemma_wf_cycle_range(cpu: Cpu6502)
    requires
        cpu.wf(),
    ensures
        1 <= cpu.cycle() <= 7,
        cpu.instruction() == decode(cpu.opcode()) || cpu.instruction() == CpuInstruction::PowerOn,
{
}

/// The micro-op the next tick runs is the instruction's entry for the current cycle.
pub proof fn lemma_current_mop(cpu: Cpu6502)
    ensures
        cpu.current_mop() == instr_cycles(cpu.instruction())[cpu.cycle() - 1],
        cpu.branch_taken() == branch_condition(cpu.opcode(), cpu.spec_flags()),
        cpu.pushed_flags() == if cpu.event() is BRK {
            cpu.spec_flags() | 0x30
        } else {
            cpu.spec_flags() | 0x20
        },
{
}

/// When the next tick is defined: a vector fetch needs a pending event, a branch one
/// of the implemented branch opcodes.
pub proof fn lemma_tick_defined(cpu: Cpu6502)
    ensures
        cpu.tick_defined() == match cpu.current_mop() {
            MicroOp::FetchPch | MicroOp::FetchPcl => !(cpu.event() is NoEvent),
            MicroOp::Branch => is_implemented_branch(cpu.opcode()),
            _ => true,
        },
{
}

/// What the next tick does on the bus, for each micro-op.
pub proof fn lemma_bus_access(cpu: Cpu6502)
    ensures
        cpu.bus_access() == match cpu.current_mop() {
            MicroOp::Nop | MicroOp::AmodeAddXZp => BusAccess::Idle,
            MicroOp::Yeild | MicroOp::AmodeZpg | MicroOp::AmodeRel | MicroOp::AmodeAbsLoadH
            | MicroOp::AmodeAbsLoadL | MicroOp::AmodeAbsLoadLAddX | MicroOp::AmodeAbsLoadLAddY
            | MicroOp::LoadAImm => BusAccess::Read(cpu.spec_pc()),
            MicroOp::AmodeLoadVal | MicroOp::LoadAMem => BusAccess::Read(cpu.operand_addr()),
            MicroOp::PushPch => BusAccess::Write(stack_addr(cpu.spec_sp()), (cpu.spec_pc() / 0x100) as u8),
            MicroOp::PushPcl => BusAccess::Write(stack_addr(cpu.spec_sp()), (cpu.spec_pc() % 0x100) as u8),
            MicroOp::PushFlags => BusAccess::Write(stack_addr(cpu.spec_sp()), cpu.pushed_flags()),
            MicroOp::FetchPch => BusAccess::Read(vector_hi(cpu.event())),
            MicroOp::FetchPcl => BusAccess::Read(vector_lo(cpu.event())),
            MicroOp::Branch => if cpu.branch_taken() {
                BusAccess::Idle
            } else {
                BusAccess::Read(cpu.spec_pc())
            },
            MicroOp::PageCrossPenalty => if cpu.page_cross_pending() {
                BusAccess::Idle
            } else {
                BusAccess::Read(cpu.spec_pc())
            },
        },
{
}

/// The first cycle of every instruction is defined for any event.
proof fn lemma_first_cycle_defined(instr: CpuInstruction)
    ensures
        instr_cycles(instr)[0] != MicroOp::FetchPch,
        instr_cycles(instr)[0] != MicroOp::FetchPcl,
        instr_cycles(instr)[0] != MicroOp::Branch,
{
}

/// An opcode fetch (a fetch cycle, a branch not taken, or a page-crossing penalty not
/// owed): PC advances, the registers stay, and the next instruction starts.
proof fn lemma_fetch(s: Cpu6502, b: u8)
    requires
        s.wf(),
        s.t_state != 1,
        s.current_mop() == MicroOp::Yeild || (s.current_mop() == MicroOp::Branch
            && !s.branch_taken()) || (s.current_mop() == MicroOp::PageCrossPenalty
            && !s.page_crossed),
    ensures
        just_fetched(s.after_tick(b), s.cpu_event, b),
        s.after_tick(b).pc == s.pc.wrapping_add(1),
        keeps_registers(s, s.after_tick(b)),
        s.after_tick(b).a == s.a,
{
    let fetched: u8 = if s.cpu_event is NoEvent {
        b
    } else {
        0
    };
    lemma_first_cycle_defined(decode(fetched));
}

/// The power-on sequence: seven cycles that push PC and the flags, read the reset
/// vector at 0xFFFC/0xFFFD, and fetch the first opcode from the address it holds.
/// `b0` is the byte swallowed on the first cycle, `lo`/`hi` the vector, `op` the
/// first opcode. A, X and Y stay 0, and every cycle on the way is defined.
#[verifier::spinoff_prover]
#[verifier::rlimit(60)]
pub proof fn law_power_on_sequence(b0: u8, lo: u8, hi: u8, op: u8)
    ensures
        ({
            let s0 = Cpu6502::power_on();
            let s1 = s0.after_tick(b0);
            let s2 = s1.after_tick(0);
            let s3 = s2.after_tick(0);
            let s4 = s3.after_tick(0);
            let s5 = s4.after_tick(lo);
            let s6 = s5.after_tick(hi);
            let s7 = s6.after_tick(op);
            let vector = (hi * 0x100 + lo) as u16;
            &&& s0.bus_access() == BusAccess::Read(0)
            &&& s1.bus_access() == BusAccess::Write(0x01FD, 0)
            &&& s2.bus_access() == BusAccess::Write(0x01FC, 1)
            &&& s3.bus_access() == BusAccess::Write(0x01FB, 0x24)
            &&& s4.bus_access() == BusAccess::Read(0xFFFC)
            &&& s5.bus_access() == BusAccess::Read(0xFFFD)
            &&& s6.bus_access() == BusAccess::Read(vector)
            &&& s0.wf() && s0.tick_defined()
            &&& s1.wf() && s1.tick_defined()
            &&& s2.wf() && s2.tick_defined()
            &&& s3.wf() && s3.tick_defined()
            &&& s4.wf() && s4.tick_defined()
            &&& s5.wf() && s5.tick_defined()
            &&& s6.wf() && s6.tick_defined()
            &&& s6.event() is NoEvent
            &&& just_fetched(s7, CpuEvent::NoEvent, op)
            &&& s7.spec_pc() == vector.wrapping_add(1)
            &&& s7.spec_sp() == 0xFA
            &&& s7.spec_flags() == 0x04
            &&& s7.spec_a() == 0
            &&& s7.spec_x() == 0
            &&& s7.spec_y() == 0
        }),
{
    let cyc = instr_cycles(CpuInstruction::PowerOn);
    assert(cyc[0] == MicroOp::Yeild && cyc[1] == MicroOp::PushPch && cyc[2] == MicroOp::PushPcl
        && cyc[3] == MicroOp::PushFlags && cyc[4] == MicroOp::FetchPcl && cyc[5]
        == MicroOp::FetchPch && cyc[6] == MicroOp::Yeild);
    let s0 = Cpu6502::power_on();
    let s1 = s0.after_tick(b0);
    assert(s1.pc == 1 && s1.t_state == 2 && s1.sp == 0xFD && s1.current_instr
        == CpuInstruction::PowerOn && s1.cpu_event == CpuEvent::Reset && s1.a == 0 && s1.x == 0
        && s1.y == 0);
    let s2 = s1.after_tick(0);
    assert(s2.pc == 1 && s2.t_state == 3 && s2.sp == 0xFC && s2.current_instr
        == CpuInstruction::PowerOn && s2.cpu_event == CpuEvent::Reset && s2.a == 0 && s2.x == 0
        && s2.y == 0);
    let s3 = s2.after_tick(0);
    assert(s3.pc == 1 && s3.t_state == 4 && s3.sp == 0xFB && s3.flags == 4 && s3.current_instr
        == CpuInstruction::PowerOn && s3.a == 0 && s3.x == 0 && s3.y == 0);
    assert(0x04u8 | 0x20u8 == 0x24u8) by (bit_vector);
    let s4 = s3.after_tick(0);
    assert(s4.pc == 1 && s4.t_state == 5 && s4.sp == 0xFA && s4.cpu_event == CpuEvent::Reset
        && s4.current_instr == CpuInstruction::PowerOn && s4.a == 0 && s4.x == 0 && s4.y == 0);
    let s5 = s4.after_tick(lo);
    assert(0x04u8 | 0x04u8 == 0x04u8) by (bit_vector);
    assert(s5.pc == lo && s5.t_state == 6 && s5.flags == 4 && s5.cpu_event == CpuEvent::Reset
        && s5.current_instr == CpuInstruction::PowerOn && s5.a == 0 && s5.x == 0 && s5.y == 0);
    let s6 = s5.after_tick(hi);
    assert(s6.pc == (hi * 0x100 + lo) as u16 && s6.t_state == 7 && s6.cpu_event
        == CpuEvent::NoEvent && s6.current_instr == CpuInstruction::PowerOn && s6.a == 0 && s6.x
        == 0 && s6.y == 0 && s6.sp == 0xFA && s6.flags == 4);
    lemma_fetch(s6, op);
}

/// Each tick either moves to the next cycle of the instruction or, after an opcode
/// fetch, starts the next instruction at its first cycle; the state stays well formed.
#[verifier::spinoff_prover]
pub proof fn law_tick_advances_cycle(cpu: Cpu6502, byte: u8)
    requires
        cpu.wf(),
    ensures
        cpu.after_tick(byte).cycle() == cpu.cycle() + 1 || cpu.after_tick(byte).cycle() == 1,
        cpu.after_tick(byte).wf(),
{
    lemma_last_cycle_fetches(cpu.current_instr);
}

/// An opcode fetch starts the next instruction: with no event pending, the one the
/// fetched byte selects (a fetched 0 raises BRK); with an event pending, BRK,
/// whatever byte memory holds, so that the event is handled after the current
/// instruction. PC advances past the opcode; A, X, Y, SP and the flags stay.
#[verifier::spinoff_prover]
pub proof fn law_opcode_fetch(cpu: Cpu6502, byte: u8)
    requires
        cpu.wf(),
        cpu.current_mop() == MicroOp::Yeild,
        cpu.cycle() != 1,
    ensures
        just_fetched(cpu.after_tick(byte), cpu.event(), byte),
        cpu.after_tick(byte).spec_pc() == cpu.spec_pc().wrapping_add(1),
        cpu.after_tick(byte).spec_a() == cpu.spec_a(),
        keeps_registers(cpu, cpu.after_tick(byte)),
{
    lemma_fetch(cpu, byte);
}

/// Branch timing: a branch not taken takes two cycles, a taken branch three, and
/// a taken branch to another page four; a taken branch continues at the target.
/// The closing cycle fetches the next opcode; A, X, Y, SP and the flags stay.
#[verifier::spinoff_prover]
#[verifier::rlimit(60)]
pub proof fn law_branch_timing(s0: Cpu6502, offset: u8, b2: u8, b3: u8, b4: u8)
    requires
        s0.wf(),
        s0.instruction() == CpuInstruction::BxxRel,
        s0.cycle() == 1,
        is_implemented_branch(s0.opcode()),
    ensures
        ({
            let s1 = s0.after_tick(offset);
            let s2 = s1.after_tick(b2);
            let s3 = s2.after_tick(b3);
            let s4 = s3.after_tick(b4);
            let next = s0.spec_pc().wrapping_add(1);
            let target = branch_target(next, offset);
            let taken = branch_condition(s0.opcode(), s0.spec_flags());
            &&& s0.tick_defined() && s1.wf() && s1.tick_defined()
            &&& s0.bus_access() == BusAccess::Read(s0.spec_pc())
            &&& !taken ==> s1.bus_access() == BusAccess::Read(next)
            &&& !taken ==> just_fetched(s2, s0.event(), b2) && s2.spec_pc() == next.wrapping_add(1)
                && s2.spec_a() == s0.spec_a() && keeps_registers(s0, s2)
            &&& taken ==> s1.bus_access() == BusAccess::Idle && s2.spec_pc() == target && s2.cycle()
                == 3 && s2.wf() && s2.tick_defined() && s2.bus_access() == (if next / 0x100
                == target / 0x100 {
                BusAccess::Read(target)
            } else {
                BusAccess::Idle
            })
            &&& (taken && next / 0x100 == target / 0x100) ==> just_fetched(s3, s0.event(), b3)
                && s3.spec_pc() == target.wrapping_add(1) && s3.spec_a() == s0.spec_a()
                && keeps_registers(s0, s3)
            &&& (taken && next / 0x100 != target / 0x100) ==> s3.cycle() == 4 && s3.wf()
                && s3.tick_defined() && s3.bus_access() == BusAccess::Read(target)
                && just_fetched(s4, s0.event(), b4) && s4.spec_pc() == target.wrapping_add(1)
                && s4.spec_a() == s0.spec_a() && keeps_registers(s0, s4)
        }),
{
    let cyc = instr_cycles(CpuInstruction::BxxRel);
    assert(cyc[0] == MicroOp::AmodeRel && cyc[1] == MicroOp::Branch && cyc[2]
        == MicroOp::PageCrossPenalty && cyc[3] == MicroOp::Yeild);
    let next = s0.pc.wrapping_add(1);
    let target = branch_target(next, offset);
    let s1 = s0.after_tick(offset);
    assert(s1.current_instr == CpuInstruction::BxxRel && s1.t_state == 2 && s1.pc == next
        && s1.amode_addr == target && s1.page_crossed == (next / 0x100 != target / 0x100)
        && s1.current_opcode == s0.current_opcode && s1.flags == s0.flags && s1.a == s0.a && s1.x
        == s0.x && s1.y == s0.y && s1.sp == s0.sp && s1.cpu_event == s0.cpu_event);
    let s2 = s1.after_tick(b2);
    if branch_condition(s0.current_opcode, s0.flags) {
        assert(s2.pc == target && s2.t_state == 3 && s2.current_instr == CpuInstruction::BxxRel
            && s2.page_crossed == s1.page_crossed && s2.flags == s0.flags && s2.a == s0.a && s2.x
            == s0.x && s2.y == s0.y && s2.sp == s0.sp && s2.cpu_event == s0.cpu_event
            && s2.current_opcode == s0.current_opcode);
        let s3 = s2.after_tick(b3);
        if next / 0x100 != target / 0x100 {
            assert(s3.t_state == 4 && s3.pc == target && s3.current_instr
                == CpuInstruction::BxxRel && !s3.page_crossed && s3.flags == s0.flags && s3.a
                == s0.a && s3.x == s0.x && s3.y == s0.y && s3.sp == s0.sp && s3.cpu_event
                == s0.cpu_event && s3.current_opcode == s0.current_opcode);
            lemma_fetch(s3, b4);
        } else {
            lemma_fetch(s2, b3);
        }
    } else {
        lemma_fetch(s1, b2);
    }
}

/// LDA absolute,X: the byte is loaded from the 16-bit base plus X (modulo 64 KiB),
/// in four cycles, or five when the low byte plus X crosses a page (or a page
/// crossing is still recorded from before). The closing cycle fetches the next
/// opcode; X, Y, SP and the flags stay.
#[verifier::spinoff_prover]
#[verifier::rlimit(60)]
pub proof fn law_lda_absolute_x(s0: Cpu6502, lo: u8, hi: u8, val: u8, b4: u8, b5: u8)
    requires
        s0.wf(),
        s0.instruction() == CpuInstruction::LdaAbx,
        s0.cycle() == 1,
    ensures
        ({
            let s1 = s0.after_tick(lo);
            let s2 = s1.after_tick(hi);
            let s3 = s2.after_tick(val);
            let s4 = s3.after_tick(b4);
            let s5 = s4.after_tick(b5);
            let crossed = lo + s0.spec_x() > 0xFF || s0.page_cross_pending();
            &&& s0.tick_defined() && s1.wf() && s1.tick_defined() && s2.wf() && s2.tick_defined()
            &&& s3.wf() && s3.tick_defined()
            &&& s2.operand_addr() == (lo + s0.spec_x() + hi * 0x100) % 0x10000
            &&& s2.bus_access() == BusAccess::Read(s2.operand_addr())
            &&& s3.spec_a() == val
            &&& !crossed ==> just_fetched(s4, s0.event(), b4) && s4.spec_a() == val
                && keeps_registers(s0, s4)
            &&& crossed ==> s4.cycle() == 5 && s4.wf() && s4.tick_defined() && just_fetched(
                s5,
                s0.event(),
                b5,
            ) && s5.spec_a() == val && keeps_registers(s0, s5)
        }),
{
    let cyc = instr_cycles(CpuInstruction::LdaAbx);
    assert(cyc[0] == MicroOp::AmodeAbsLoadLAddX && cyc[1] == MicroOp::AmodeAbsLoadH && cyc[2]
        == MicroOp::LoadAMem && cyc[3] == MicroOp::PageCrossPenalty && cyc[4] == MicroOp::Yeild);
    let s1 = s0.after_tick(lo);
    assert(s1.current_instr == CpuInstruction::LdaAbx && s1.t_state == 2 && s1.amode_addr == lo
        + s0.x && s1.page_crossed == s0.page_crossed && s1.x == s0.x && s1.y == s0.y && s1.sp
        == s0.sp && s1.flags == s0.flags && s1.cpu_event == s0.cpu_event && s1.current_opcode
        == s0.current_opcode);
    let s2 = s1.after_tick(hi);
    let crossed = lo + s0.x > 0xFF || s0.page_crossed;
    assert(s2.current_instr == CpuInstruction::LdaAbx && s2.t_state == 3 && s2.page_crossed
        == crossed && s2.x == s0.x && s2.y == s0.y && s2.sp == s0.sp && s2.flags == s0.flags
        && s2.cpu_event == s0.cpu_event && s2.current_opcode == s0.current_opcode);
    assert(s2.amode_addr == (lo + s0.x + hi * 0x100) % 0x10000);
    let s3 = s2.after_tick(val);
    assert(s3.current_instr == CpuInstruction::LdaAbx && s3.t_state == 4 && s3.page_crossed
        == crossed && s3.a == val && s3.x == s0.x && s3.y == s0.y && s3.sp == s0.sp && s3.flags
        == s0.flags && s3.cpu_event == s0.cpu_event && s3.current_opcode == s0.current_opcode);
    let s4 = s3.after_tick(b4);
    if crossed {
        assert(s4.current_instr == CpuInstruction::LdaAbx && s4.t_state == 5 && s4.a == val
            && s4.x == s0.x && s4.y == s0.y && s4.sp == s0.sp && s4.flags == s0.flags
            && s4.cpu_event == s0.cpu_event && s4.current_opcode == s0.current_opcode);
        lemma_fetch(s4, b5);
    } else {
        lemma_fetch(s3, b4);
    }
}

/// LDA abs,Y: the byte is loaded from the 16-bit base plus Y (modulo 64 KiB),
/// in four cycles, or five when the low byte plus Y crosses a page (or a page
/// crossing is still recorded from before). The closing cycle fetches the next
/// opcode; X, Y, SP and the flags stay.
#[verifier::spinoff_prover]
#[verifier::rlimit(60)]
pub proof fn law_lda_absolute_y(s0: Cpu6502, lo: u8, hi: u8, val: u8, b4: u8, b5: u8)
    requires
        s0.wf(),
        s0.instruction() == CpuInstruction::LdaAby,
        s0.cycle() == 1,
    ensures
        ({
            let s1 = s0.after_tick(lo);
            let s2 = s1.after_tick(hi);
            let s3 = s2.after_tick(val);
            let s4 = s3.after_tick(b4);
            let s5 = s4.after_tick(b5);
            let crossed = lo + s0.spec_y() > 0xFF || s0.page_cross_pending();
            &&& s0.tick_defined() && s1.wf() && s1.tick_defined() && s2.wf() && s2.tick_defined()
            &&& s3.wf() && s3.tick_defined()
            &&& s2.operand_addr() == (lo + s0.spec_y() + hi * 0x100) % 0x10000
            &&& s2.bus_access() == BusAccess::Read(s2.operand_addr())
            &&& s3.spec_a() == val
            &&& !crossed ==> just_fetched(s4, s0.event(), b4) && s4.spec_a() == val
                && keeps_registers(s0, s4)
            &&& crossed ==> s4.cycle() == 5 && s4.wf() && s4.tick_defined() && just_fetched(
                s5,
                s0.event(),
                b5,
            ) && s5.spec_a() == val && keeps_registers(s0, s5)
        }),
{
    let cyc = instr_cycles(CpuInstruction::LdaAby);
    assert(cyc[0] == MicroOp::AmodeAbsLoadLAddY && cyc[1] == MicroOp::AmodeAbsLoadH && cyc[2]
        == MicroOp::LoadAMem && cyc[3] == MicroOp::PageCrossPenalty && cyc[4] == MicroOp::Yeild);
    let s1 = s0.after_tick(lo);
    assert(s1.current_instr == CpuInstruction::LdaAby && s1.t_state == 2 && s1.amode_addr == lo
        + s0.y && s1.page_crossed == s0.page_crossed && s1.x == s0.x && s1.y == s0.y && s1.sp
        == s0.sp && s1.flags == s0.flags && s1.cpu_event == s0.cpu_event && s1.current_opcode
        == s0.current_opcode);
    let s2 = s1.after_tick(hi);
    let crossed = lo + s0.y > 0xFF || s0.page_crossed;
    assert(s2.current_instr == CpuInstruction::LdaAby && s2.t_state == 3 && s2.page_crossed
        == crossed && s2.x == s0.x && s2.y == s0.y && s2.sp == s0.sp && s2.flags == s0.flags
        && s2.cpu_event == s0.cpu_event && s2.current_opcode == s0.current_opcode);
    assert(s2.amode_addr == (lo + s0.y + hi * 0x100) % 0x10000);
    let s3 = s2.after_tick(val);
    assert(s3.current_instr == CpuInstruction::LdaAby && s3.t_state == 4 && s3.page_crossed
        == crossed && s3.a == val && s3.x == s0.x && s3.y == s0.y && s3.sp == s0.sp && s3.flags
        == s0.flags && s3.cpu_event == s0.cpu_event && s3.current_opcode == s0.current_opcode);
    let s4 = s3.after_tick(b4);
    if crossed {
        assert(s4.current_instr == CpuInstruction::LdaAby && s4.t_state == 5 && s4.a == val
            && s4.x == s0.x && s4.y == s0.y && s4.sp == s0.sp && s4.flags == s0.flags
            && s4.cpu_event == s0.cpu_event && s4.current_opcode == s0.current_opcode);
        lemma_fetch(s4, b5);
    } else {
        lemma_fetch(s3, b4);
    }
}


/// The CPU writes only to the stack page, and at most once per tick: a tick's one
/// bus access is a write only for the pushes, at 0x0100 + SP.
pub proof fn law_writes_only_stack_page(cpu: Cpu6502)
    ensures
        cpu.bus_access() matches BusAccess::Write(addr, _) ==> 0x0100 <= addr <= 0x01FF,
        cpu.bus_access() matches BusAccess::Write(addr, _) ==> addr == stack_addr(cpu.spec_sp()),
{
}

/// While an event is pending, an instruction other than BRK runs as usual and
/// keeps the event pending; the tick that would fetch the next opcode starts BRK
/// instead (opcode 0).
#[verifier::spinoff_prover]
pub proof fn law_pending_event_waits_for_fetch(cpu: Cpu6502, byte: u8)
    requires
        cpu.wf(),
        cpu.instruction() != CpuInstruction::BrkImp,
        cpu.instruction() != CpuInstruction::PowerOn,
        cpu.instruction() == CpuInstruction::BxxRel ==> is_implemented_branch(cpu.opcode()),
        !(cpu.event() is NoEvent),
    ensures
        cpu.tick_defined(),
        cpu.after_tick(byte).wf(),
        cpu.after_tick(byte).event() == cpu.event(),
        cpu.after_tick(byte).cycle() == 1 ==> just_fetched(cpu.after_tick(byte), cpu.event(), byte),
        cpu.after_tick(byte).cycle() != 1 ==> cpu.after_tick(byte).cycle() == cpu.cycle() + 1
            && cpu.after_tick(byte).instruction() == cpu.instruction() && cpu.after_tick(byte).opcode()
            == cpu.opcode(),
{
    lemma_last_cycle_fetches(cpu.current_instr);
    lemma_first_cycle_defined(CpuInstruction::BrkImp);
}

/// The BRK sequence, entered with an event pending (BRK after opcode 0, or the
/// event that replaced a fetch): one cycle swallows the byte after the opcode,
/// three push PC (high, low) and the flags (B set only for BRK), two read the
/// event's vector and set the I flag, and the seventh fetches the opcode at the
/// vector. Every cycle is defined; A, X and Y stay.
#[verifier::spinoff_prover]
#[verifier::rlimit(80)]
pub proof fn law_brk_sequence(s0: Cpu6502, b0: u8, lo: u8, hi: u8, op: u8)
    requires
        s0.wf(),
        s0.instruction() == CpuInstruction::BrkImp || s0.instruction() == CpuInstruction::PowerOn,
        s0.cycle() == 1,
        !(s0.event() is NoEvent),
    ensures
        ({
            let s1 = s0.after_tick(b0);
            let s2 = s1.after_tick(0);
            let s3 = s2.after_tick(0);
            let s4 = s3.after_tick(0);
            let s5 = s4.after_tick(lo);
            let s6 = s5.after_tick(hi);
            let s7 = s6.after_tick(op);
            let sp = s0.spec_sp();
            let q = s0.spec_pc().wrapping_add(1);
            let vector = (hi * 0x100 + lo) as u16;
            let pushed = if s0.event() is BRK {
                s0.spec_flags() | 0x30
            } else {
                s0.spec_flags() | 0x20
            };
            &&& s0.bus_access() == BusAccess::Read(s0.spec_pc())
            &&& s1.bus_access() == BusAccess::Write(stack_addr(sp), (q / 0x100) as u8)
            &&& s2.bus_access() == BusAccess::Write(
                stack_addr(sp.wrapping_sub(1)),
                (q % 0x100) as u8,
            )
            &&& s3.bus_access() == BusAccess::Write(stack_addr(sp.wrapping_sub(1).wrapping_sub(1)), pushed)
            &&& s4.bus_access() == BusAccess::Read(vector_lo(s0.event()))
            &&& s5.bus_access() == BusAccess::Read(vector_hi(s0.event()))
            &&& s6.bus_access() == BusAccess::Read(vector)
            &&& s0.tick_defined()
            &&& s1.wf() && s1.tick_defined()
            &&& s2.wf() && s2.tick_defined()
            &&& s3.wf() && s3.tick_defined()
            &&& s4.wf() && s4.tick_defined()
            &&& s5.wf() && s5.tick_defined()
            &&& s6.wf() && s6.tick_defined()
            &&& s6.spec_pc() == vector
            &&& s6.spec_sp() == sp.wrapping_sub(1).wrapping_sub(1).wrapping_sub(1)
            &&& s6.spec_flags() == s0.spec_flags() | 0x04
            &&& s6.event() is NoEvent
            &&& s6.cycle() == 7
            &&& s6.spec_a() == s0.spec_a() && s6.spec_x() == s0.spec_x() && s6.spec_y() == s0.spec_y()
            &&& just_fetched(s7, CpuEvent::NoEvent, op)
            &&& s7.spec_pc() == vector.wrapping_add(1)
            &&& keeps_registers(s6, s7)
            &&& s7.spec_a() == s0.spec_a()
        }),
{
    let cyc = instr_cycles(s0.current_instr);
    assert(cyc[0] == MicroOp::Yeild && cyc[1] == MicroOp::PushPch && cyc[2] == MicroOp::PushPcl
        && cyc[3] == MicroOp::PushFlags && cyc[4] == MicroOp::FetchPcl && cyc[5]
        == MicroOp::FetchPch && cyc[6] == MicroOp::Yeild);
    let e = s0.cpu_event;
    let q = s0.pc.wrapping_add(1);
    let sp = s0.sp;
    let s1 = s0.after_tick(b0);
    assert(s1.pc == q && s1.t_state == 2 && s1.sp == sp && s1.cpu_event == e && s1.flags
        == s0.flags && s1.current_instr == s0.current_instr && s1.a == s0.a && s1.x == s0.x
        && s1.y == s0.y && s1.current_opcode == s0.current_opcode);
    let s2 = s1.after_tick(0);
    assert(s2.pc == q && s2.t_state == 3 && s2.sp == sp.wrapping_sub(1) && s2.cpu_event == e
        && s2.flags == s0.flags && s2.current_instr == s0.current_instr && s2.a == s0.a && s2.x
        == s0.x && s2.y == s0.y && s2.current_opcode == s0.current_opcode);
    let s3 = s2.after_tick(0);
    assert(s3.pc == q && s3.t_state == 4 && s3.sp == sp.wrapping_sub(1).wrapping_sub(1)
        && s3.cpu_event == e && s3.flags == s0.flags && s3.current_instr == s0.current_instr
        && s3.a == s0.a && s3.x == s0.x && s3.y == s0.y && s3.current_opcode == s0.current_opcode);
    let s4 = s3.after_tick(0);
    assert(s4.pc == q && s4.t_state == 5 && s4.sp == sp.wrapping_sub(1).wrapping_sub(1).wrapping_sub(1)
        && s4.cpu_event == e && s4.flags == s0.flags && s4.current_instr == s0.current_instr
        && s4.a == s0.a && s4.x == s0.x && s4.y == s0.y && s4.current_opcode == s0.current_opcode);
    let s5 = s4.after_tick(lo);
    assert(s5.pc == ((q / 0x100) * 0x100 + lo) as u16 && s5.t_state == 6 && s5.cpu_event == e
        && s5.flags == s0.flags | 0x04 && s5.current_instr == s0.current_instr && s5.a == s0.a
        && s5.x == s0.x && s5.y == s0.y && s5.sp == s4.sp && s5.current_opcode == s0.current_opcode);
    let s6 = s5.after_tick(hi);
    assert(s6.pc == (hi * 0x100 + lo) as u16 && s6.t_state == 7 && s6.cpu_event
        == CpuEvent::NoEvent && s6.flags == s0.flags | 0x04 && s6.current_instr == s0.current_instr
        && s6.a == s0.a && s6.x == s0.x && s6.y == s0.y && s6.sp == s4.sp && s6.current_opcode
        == s0.current_opcode);
    lemma_fetch(s6, op);
}

/// NOP takes two cycles: an idle one, then the fetch of the next opcode.
#[verifier::spinoff_prover]
pub proof fn law_nop_timing(s0: Cpu6502, b1: u8, b2: u8)
    requires
        s0.wf(),
        s0.instruction() == CpuInstruction::NopImp,
        s0.cycle() == 1,
    ensures
        ({
            let s1 = s0.after_tick(b1);
            let s2 = s1.after_tick(b2);
            &&& s0.tick_defined() && s1.wf() && s1.tick_defined()
            &&& s0.bus_access() == BusAccess::Idle
            &&& s1.cycle() == 2
            &&& s1.bus_access() == BusAccess::Read(s0.spec_pc())
            &&& just_fetched(s2, s0.event(), b2)
            &&& s2.spec_pc() == s0.spec_pc().wrapping_add(1)
            &&& s2.spec_a() == s0.spec_a()
            &&& keeps_registers(s0, s2)
        }),
{
    let s1 = s0.after_tick(b1);
    assert(s1 == (Cpu6502 { t_state: 2, ..s0 }));
    lemma_fetch(s1, b2);
}

/// LDA #imm takes two cycles: A gets the byte after the opcode, then the next
/// opcode is fetched.
#[verifier::spinoff_prover]
pub proof fn law_lda_immediate(s0: Cpu6502, imm: u8, b2: u8)
    requires
        s0.wf(),
        s0.instruction() == CpuInstruction::LdaImm,
        s0.cycle() == 1,
    ensures
        ({
            let s1 = s0.after_tick(imm);
            let s2 = s1.after_tick(b2);
            &&& s0.tick_defined() && s1.wf() && s1.tick_defined()
            &&& s0.bus_access() == BusAccess::Read(s0.spec_pc())
            &&& s1.spec_a() == imm
            &&& s1.cycle() == 2
            &&& s1.bus_access() == BusAccess::Read(s0.spec_pc().wrapping_add(1))
            &&& just_fetched(s2, s0.event(), b2)
            &&& s2.spec_a() == imm
            &&& s2.spec_pc() == s0.spec_pc().wrapping_add(1).wrapping_add(1)
            &&& keeps_registers(s0, s2)
        }),
{
    let s1 = s0.after_tick(imm);
    assert(s1 == (Cpu6502 { t_state: 2, a: imm, pc: s0.pc.wrapping_add(1), ..s0 }));
    lemma_fetch(s1, b2);
}

/// LDA zp takes three cycles and loads A from the zero page address.
#[verifier::spinoff_prover]
pub proof fn law_lda_zero_page(s0: Cpu6502, zp: u8, val: u8, b3: u8)
    requires
        s0.wf(),
        s0.instruction() == CpuInstruction::LdaZpg,
        s0.cycle() == 1,
    ensures
        ({
            let s1 = s0.after_tick(zp);
            let s2 = s1.after_tick(val);
            let s3 = s2.after_tick(b3);
            &&& s0.tick_defined() && s1.wf() && s1.tick_defined() && s2.wf() && s2.tick_defined()
            &&& s0.bus_access() == BusAccess::Read(s0.spec_pc())
            &&& s1.cycle() == 2
            &&& s1.bus_access() == BusAccess::Read(zp as u16)
            &&& s2.spec_a() == val
            &&& s2.cycle() == 3
            &&& s2.bus_access() == BusAccess::Read(s0.spec_pc().wrapping_add(1))
            &&& just_fetched(s3, s0.event(), b3)
            &&& s3.spec_a() == val
            &&& s3.spec_pc() == s0.spec_pc().wrapping_add(1).wrapping_add(1)
            &&& keeps_registers(s0, s3)
        }),
{
    let cyc = instr_cycles(CpuInstruction::LdaZpg);
    assert(cyc[0] == MicroOp::AmodeZpg && cyc[1] == MicroOp::LoadAMem && cyc[2] == MicroOp::Yeild);
    let s1 = s0.after_tick(zp);
    assert(s1 == (Cpu6502 { t_state: 2, amode_addr: zp as u16, pc: s0.pc.wrapping_add(1), ..s0 }));
    let s2 = s1.after_tick(val);
    assert(s2 == (Cpu6502 { t_state: 3, a: val, ..s1 }));
    lemma_fetch(s2, b3);
}

/// LDA zp,X takes four cycles and loads A from zp + X within the zero page.
#[verifier::spinoff_prover]
#[verifier::rlimit(40)]
pub proof fn law_lda_zero_page_x(s0: Cpu6502, zp: u8, b2: u8, val: u8, b4: u8)
    requires
        s0.wf(),
        s0.instruction() == CpuInstruction::LdaZpx,
        s0.cycle() == 1,
    ensures
        ({
            let s1 = s0.after_tick(zp);
            let s2 = s1.after_tick(b2);
            let s3 = s2.after_tick(val);
            let s4 = s3.after_tick(b4);
            &&& s0.tick_defined() && s1.wf() && s1.tick_defined() && s2.wf() && s2.tick_defined()
            &&& s3.wf() && s3.tick_defined()
            &&& s0.bus_access() == BusAccess::Read(s0.spec_pc())
            &&& s1.cycle() == 2
            &&& s1.bus_access() == BusAccess::Idle
            &&& s2.cycle() == 3
            &&& s2.operand_addr() == ((zp + s0.spec_x()) % 0x100) as u16
            &&& s2.bus_access() == BusAccess::Read(s2.operand_addr())
            &&& s3.spec_a() == val
            &&& s3.cycle() == 4
            &&& just_fetched(s4, s0.event(), b4)
            &&& s4.spec_a() == val
            &&& s4.spec_pc() == s0.spec_pc().wrapping_add(1).wrapping_add(1)
            &&& keeps_registers(s0, s4)
        }),
{
    let cyc = instr_cycles(CpuInstruction::LdaZpx);
    assert(cyc[0] == MicroOp::AmodeZpg && cyc[1] == MicroOp::AmodeAddXZp && cyc[2]
        == MicroOp::LoadAMem && cyc[3] == MicroOp::Yeild);
    let s1 = s0.after_tick(zp);
    assert(s1 == (Cpu6502 { t_state: 2, amode_addr: zp as u16, pc: s0.pc.wrapping_add(1), ..s0 }));
    let s2 = s1.after_tick(b2);
    assert(s2 == (Cpu6502 { t_state: 3, amode_addr: ((zp + s0.x) % 0x100) as u16, ..s1 }));
    let s3 = s2.after_tick(val);
    assert(s3 == (Cpu6502 { t_state: 4, a: val, ..s2 }));
    lemma_fetch(s3, b4);
}

/// LDA abs takes four cycles and loads A from the 16-bit address.
#[verifier::spinoff_prover]
#[verifier::rlimit(60)]
pub proof fn law_lda_absolute(s0: Cpu6502, lo: u8, hi: u8, val: u8, b4: u8)
    requires
        s0.wf(),
        s0.instruction() == CpuInstruction::LdaAbs,
        s0.cycle() == 1,
    ensures
        ({
            let s1 = s0.after_tick(lo);
            let s2 = s1.after_tick(hi);
            let s3 = s2.after_tick(val);
            let s4 = s3.after_tick(b4);
            &&& s0.tick_defined() && s1.wf() && s1.tick_defined() && s2.wf() && s2.tick_defined()
            &&& s3.wf() && s3.tick_defined()
            &&& s2.cycle() == 3
            &&& s2.operand_addr() == (hi * 0x100 + lo) as u16
            &&& s2.bus_access() == BusAccess::Read(s2.operand_addr())
            &&& s3.spec_a() == val
            &&& s3.cycle() == 4
            &&& just_fetched(s4, s0.event(), b4)
            &&& s4.spec_a() == val
            &&& s4.spec_pc() == s0.spec_pc().wrapping_add(1).wrapping_add(1).wrapping_add(1)
            &&& keeps_registers(s0, s4)
        }),
{
    let cyc = instr_cycles(CpuInstruction::LdaAbs);
    assert(cyc[0] == MicroOp::AmodeAbsLoadL && cyc[1] == MicroOp::AmodeAbsLoadH && cyc[2]
        == MicroOp::LoadAMem && cyc[3] == MicroOp::Yeild);
    let s1 = s0.after_tick(lo);
    assert(s1 == (Cpu6502 { t_state: 2, amode_addr: lo as u16, pc: s0.pc.wrapping_add(1), ..s0 }));
    assert((lo + hi * 0x100) % 0x10000 == lo + hi * 0x100);
    let s2 = s1.after_tick(hi);
    assert(s2.amode_addr == (hi * 0x100 + lo) as u16 && s2.t_state == 3 && s2.current_instr
        == CpuInstruction::LdaAbs && s2.pc == s1.pc.wrapping_add(1) && s2.page_crossed
        == s1.page_crossed);
    assert(s2 == (Cpu6502 {
        t_state: 3,
        amode_addr: (hi * 0x100 + lo) as u16,
        pc: s1.pc.wrapping_add(1),
        ..s1
    }));
    let s3 = s2.after_tick(val);
    assert(s3 == (Cpu6502 { t_state: 4, a: val, ..s2 }));
    lemma_fetch(s3, b4);
}


/// What one tick does to the bus: at most one write, to the stack page, and
/// nothing that the PPU bus sees.
pub proof fn law_tick_bus_effect(pre: Cpu6502, pre_bus: DualBus, post: Cpu6502, post_bus: DualBus)
    requires
        tick_step(pre, pre_bus, post, post_bus),
    ensures
        match pre.bus_access() {
            BusAccess::Write(addr, val) => 0x0100 <= addr <= 0x01FF && pre_bus.abus_wrote(
                addr,
                val,
                post_bus,
            ),
            _ => post_bus == pre_bus,
        },
        forall|a: u16|
            #![trigger post_bus.spec_bbus_read(a)]
            post_bus.spec_bbus_read(a) == pre_bus.spec_bbus_read(a) && post_bus.bbus_read_ok(a)
                == pre_bus.bbus_read_ok(a),
{
    law_writes_only_stack_page(pre);
    assert forall|a: u16|
        #![trigger post_bus.spec_bbus_read(a)]
        post_bus.spec_bbus_read(a) == pre_bus.spec_bbus_read(a) && post_bus.bbus_read_ok(a)
            == pre_bus.bbus_read_ok(a) by {
        match pre.bus_access() {
            BusAccess::Write(addr, val) => {
                crate::bus::law_stack_write_keeps_ppu_bus(pre_bus, addr, val, post_bus, a);
            },
            _ => {},
        }
    }
}

/// The BRK sequence as `tick` runs it on a bus: the three pushes go to the stack
/// in order, the vector is read from the bus, and the seventh tick fetches the
/// opcode at the vector. Every tick on the way is defined.
#[verifier::spinoff_prover]
#[verifier::rlimit(80)]
pub proof fn law_brk_sequence_on_bus(cpus: Seq<Cpu6502>, buses: Seq<DualBus>, start: int)
    requires
        is_trace(cpus, buses),
        0 <= start,
        start + 8 <= cpus.len(),
        cpus[start].wf(),
        cpus[start].instruction() == CpuInstruction::BrkImp || cpus[start].instruction()
            == CpuInstruction::PowerOn,
        cpus[start].cycle() == 1,
        !(cpus[start].event() is NoEvent),
    ensures
        ({
            let s0 = cpus[start];
            let sp = s0.spec_sp();
            let q = s0.spec_pc().wrapping_add(1);
            let pushed = if s0.event() is BRK {
                s0.spec_flags() | 0x30
            } else {
                s0.spec_flags() | 0x20
            };
            let lo = buses[start + 4].spec_abus_read(vector_lo(s0.event()));
            let hi = buses[start + 5].spec_abus_read(vector_hi(s0.event()));
            let vector = (hi * 0x100 + lo) as u16;
            &&& buses[start + 1] == buses[start]
            &&& buses[start + 1].abus_wrote(stack_addr(sp), (q / 0x100) as u8, buses[start + 2])
            &&& buses[start + 2].abus_wrote(
                stack_addr(sp.wrapping_sub(1)),
                (q % 0x100) as u8,
                buses[start + 3],
            )
            &&& buses[start + 3].abus_wrote(
                stack_addr(sp.wrapping_sub(1).wrapping_sub(1)),
                pushed,
                buses[start + 4],
            )
            &&& buses[start + 5] == buses[start + 4]
            &&& buses[start + 6] == buses[start + 5]
            &&& buses[start + 7] == buses[start + 6]
            &&& cpus[start].tick_defined()
            &&& cpus[start + 1].wf() && cpus[start + 1].tick_defined()
            &&& cpus[start + 2].wf() && cpus[start + 2].tick_defined()
            &&& cpus[start + 3].wf() && cpus[start + 3].tick_defined()
            &&& cpus[start + 4].wf() && cpus[start + 4].tick_defined()
            &&& cpus[start + 5].wf() && cpus[start + 5].tick_defined()
            &&& cpus[start + 6].wf() && cpus[start + 6].tick_defined()
            &&& cpus[start + 6].spec_pc() == vector
            &&& cpus[start + 6].spec_sp() == sp.wrapping_sub(1).wrapping_sub(1).wrapping_sub(1)
            &&& cpus[start + 6].spec_flags() == s0.spec_flags() | 0x04
            &&& cpus[start + 6].event() is NoEvent
            &&& cpus[start + 6].bus_access() == BusAccess::Read(vector)
            &&& just_fetched(cpus[start + 7], CpuEvent::NoEvent, buses[start + 6].spec_abus_read(vector))
            &&& cpus[start + 7].spec_pc() == vector.wrapping_add(1)
            &&& cpus[start + 7].spec_a() == s0.spec_a()
            &&& cpus[start + 7].spec_x() == s0.spec_x()
            &&& cpus[start + 7].spec_y() == s0.spec_y()
        }),
{
    let s0 = cpus[start];
    let lo = buses[start + 4].spec_abus_read(vector_lo(s0.event()));
    let hi = buses[start + 5].spec_abus_read(vector_hi(s0.event()));
    let vector = (hi * 0x100 + lo) as u16;
    let b0 = buses[start].spec_abus_read(s0.spec_pc());
    let op = buses[start + 6].spec_abus_read(vector);
    law_brk_sequence(s0, b0, lo, hi, op);
    let s1 = s0.after_tick(b0);
    let s2 = s1.after_tick(0);
    let s3 = s2.after_tick(0);
    let s4 = s3.after_tick(0);
    let s5 = s4.after_tick(lo);
    let s6 = s5.after_tick(hi);
    let s7 = s6.after_tick(op);
    assert(cpus[start + 1] == s1 && buses[start + 1] == buses[start]) by {
        assert(trace_step(cpus, buses, start));
    }
    assert(cpus[start + 2] == s2 && buses[start + 1].abus_wrote(
        stack_addr(s0.spec_sp()),
        (s0.spec_pc().wrapping_add(1) / 0x100) as u8,
        buses[start + 2],
    )) by {
        assert(trace_step(cpus, buses, start + 1));
    }
    assert(cpus[start + 3] == s3) by {
        assert(trace_step(cpus, buses, start + 2));
    }
    assert(cpus[start + 4] == s4) by {
        assert(trace_step(cpus, buses, start + 3));
    }
    assert(cpus[start + 5] == s5 && buses[start + 5] == buses[start + 4]) by {
        assert(trace_step(cpus, buses, start + 4));
    }
    assert(cpus[start + 6] == s6 && buses[start + 6] == buses[start + 5]) by {
        assert(trace_step(cpus, buses, start + 5));
    }
    assert(cpus[start + 7] == s7 && buses[start + 7] == buses[start + 6]) by {
        assert(trace_step(cpus, buses, start + 6));
    }
    assert(trace_step(cpus, buses, start + 2));
    assert(trace_step(cpus, buses, start + 3));
}

/// With an event pending, the ticks of an instruction other than BRK keep it
/// pending until the tick that would fetch the next opcode; that tick starts BRK.
proof fn lemma_wait_for_fetch(cpus: Seq<Cpu6502>, buses: Seq<DualBus>, j: int) -> (k: int)
    requires
        is_trace(cpus, buses),
        0 <= j < cpus.len(),
        j + 8 - cpus[j].cycle() < cpus.len(),
        cpus[j].wf(),
        cpus[j].instruction() != CpuInstruction::BrkImp,
        cpus[j].instruction() != CpuInstruction::PowerOn,
        cpus[j].instruction() == CpuInstruction::BxxRel ==> is_implemented_branch(cpus[j].opcode()),
        !(cpus[j].event() is NoEvent),
    ensures
        j < k <= j + 8 - cpus[j].cycle(),
        forall|i: int|
            #![trigger cpus[i]]
            j <= i < k ==> cpus[i].wf() && cpus[i].tick_defined() && cpus[i].event()
                == cpus[j].event() && cpus[i].instruction() == cpus[j].instruction()
                && cpus[i].opcode() == cpus[j].opcode(),
        just_fetched(cpus[k], cpus[j].event(), 0),
    decreases 8 - cpus[j].cycle(),
{
    lemma_wf_cycle_range(cpus[j]);
    assert(trace_step(cpus, buses, j));
    let b = tick_byte(cpus[j], buses[j]);
    law_pending_event_waits_for_fetch(cpus[j], b);
    if cpus[j + 1].cycle() == 1 {
        j + 1
    } else {
        lemma_wf_cycle_range(cpus[j + 1]);
        let k = lemma_wait_for_fetch(cpus, buses, j + 1);
        assert forall|i: int|
            #![trigger cpus[i]]
            j <= i < k implies cpus[i].wf() && cpus[i].tick_defined() && cpus[i].event()
                == cpus[j].event() && cpus[i].instruction() == cpus[j].instruction()
                && cpus[i].opcode() == cpus[j].opcode() by {
            if i > j {
                assert(j + 1 <= i < k);
                assert(cpus[i].event() == cpus[j + 1].event());
            }
        }
        k
    }
}

/// A reset requested in the middle of a program: the current instruction runs to
/// its end with the reset pending; the tick that would fetch the next opcode
/// starts BRK instead (returned as `k`); six ticks later PC holds the reset vector
/// read from 0xFFFC/0xFFFD, the I flag is set and no event is pending, and the
/// next tick fetches the opcode there.
#[verifier::spinoff_prover]
#[verifier::rlimit(40)]
pub proof fn law_reset_mid_instruction(cpus: Seq<Cpu6502>, buses: Seq<DualBus>) -> (k: int)
    requires
        is_trace(cpus, buses),
        cpus.len() >= 15,
        cpus[0].wf(),
        cpus[0].instruction() != CpuInstruction::BrkImp,
        cpus[0].instruction() != CpuInstruction::PowerOn,
        cpus[0].instruction() == CpuInstruction::BxxRel ==> is_implemented_branch(cpus[0].opcode()),
        cpus[0].event() is Reset,
    ensures
        1 <= k <= 7,
        forall|i: int|
            0 <= i < k ==> #[trigger] cpus[i].wf() && cpus[i].tick_defined() && cpus[i].event()
                is Reset && cpus[i].instruction() == cpus[0].instruction(),
        cpus[k].opcode() == 0,
        cpus[k].instruction() == CpuInstruction::BrkImp,
        cpus[k].cycle() == 1,
        cpus[k].event() is Reset,
        forall|i: int| k <= i < k + 7 ==> #[trigger] cpus[i].wf() && cpus[i].tick_defined(),
        ({
            let lo = buses[k + 4].spec_abus_read(0xFFFC);
            let hi = buses[k + 5].spec_abus_read(0xFFFD);
            let vector = (hi * 0x100 + lo) as u16;
            &&& cpus[k + 6].spec_pc() == vector
            &&& cpus[k + 6].spec_flags() == cpus[k].spec_flags() | 0x04
            &&& cpus[k + 6].event() is NoEvent
            &&& cpus[k + 6].bus_access() == BusAccess::Read(vector)
            &&& just_fetched(cpus[k + 7], CpuEvent::NoEvent, buses[k + 6].spec_abus_read(vector))
        }),
{
    lemma_wf_cycle_range(cpus[0]);
    let k = lemma_wait_for_fetch(cpus, buses, 0);
    law_brk_sequence_on_bus(cpus, buses, k);
    assert forall|i: int| k <= i < k + 7 implies #[trigger] cpus[i].wf() && cpus[i].tick_defined() by {
        assert(i == k || i == k + 1 || i == k + 2 || i == k + 3 || i == k + 4 || i == k + 5 || i
            == k + 6);
    }
    k
}


/// The opcode table: the eight relative branches, the six LDA forms and NOP have
/// their own instructions; every other opcode runs as BRK.
pub proof fn law_opcode_table(opcode: u8)
    ensures
        decode(0x10) == CpuInstruction::BxxRel,
        decode(0x30) == CpuInstruction::BxxRel,
        decode(0x50) == CpuInstruction::BxxRel,
        decode(0x70) == CpuInstruction::BxxRel,
        decode(0x90) == CpuInstruction::BxxRel,
        decode(0xB0) == CpuInstruction::BxxRel,
        decode(0xD0) == CpuInstruction::BxxRel,
        decode(0xF0) == CpuInstruction::BxxRel,
        decode(0xA9) == CpuInstruction::LdaImm,
        decode(0xA5) == CpuInstruction::LdaZpg,
        decode(0xB5) == CpuInstruction::LdaZpx,
        decode(0xAD) == CpuInstruction::LdaAbs,
        decode(0xBD) == CpuInstruction::LdaAbx,
        decode(0xB9) == CpuInstruction::LdaAby,
        decode(0xEA) == CpuInstruction::NopImp,
        decode(0x00) == CpuInstruction::BrkImp,
        opcode & 0x1F == 0x10 ==> decode(opcode) == CpuInstruction::BxxRel,
        decode(opcode) == CpuInstruction::BxxRel ==> opcode & 0x1F == 0x10,
        is_implemented_branch(opcode) ==> decode(opcode) == CpuInstruction::BxxRel,
        is_implemented_branch(opcode) <==> (opcode & 0x1F == 0x10 && opcode != 0x50 && opcode
            != 0x70),
        (opcode & 0x1F != 0x10 && opcode != 0xA9 && opcode != 0xA5 && opcode != 0xB5 && opcode
            != 0xAD && opcode != 0xBD && opcode != 0xB9 && opcode != 0xEA) ==> decode(opcode)
            == CpuInstruction::BrkImp,
{
    assert(opcode & 0x1F == 0x10 <==> (opcode == 0x10 || opcode == 0x30 || opcode == 0x50
        || opcode == 0x70 || opcode == 0x90 || opcode == 0xB0 || opcode == 0xD0 || opcode == 0xF0))
        by (bit_vector);
}

/// The branch conditions on the status flags: BPL is taken when N (bit 7) is
/// clear, BMI when it is set, BCC when C (bit 0) is clear, BCS when it is set, BNE
/// when Z (bit 1) is clear, BEQ when it is set.
pub proof fn law_branch_conditions(flags: u8, cpu: Cpu6502)
    ensures
        branch_condition(0x10, flags) <==> flags < 0x80,
        branch_condition(0x30, flags) <==> flags >= 0x80,
        branch_condition(0x90, flags) <==> flags % 2 == 0,
        branch_condition(0xB0, flags) <==> flags % 2 == 1,
        branch_condition(0xD0, flags) <==> (flags / 2) % 2 == 0,
        branch_condition(0xF0, flags) <==> (flags / 2) % 2 == 1,
        cpu.opcode() == 0x10 ==> (cpu.branch_taken() <==> cpu.spec_flags() < 0x80),
        cpu.opcode() == 0x30 ==> (cpu.branch_taken() <==> cpu.spec_flags() >= 0x80),
        cpu.opcode() == 0x90 ==> (cpu.branch_taken() <==> cpu.spec_flags() % 2 == 0),
        cpu.opcode() == 0xB0 ==> (cpu.branch_taken() <==> cpu.spec_flags() % 2 == 1),
        cpu.opcode() == 0xD0 ==> (cpu.branch_taken() <==> (cpu.spec_flags() / 2) % 2 == 0),
        cpu.opcode() == 0xF0 ==> (cpu.branch_taken() <==> (cpu.spec_flags() / 2) % 2 == 1),
{
    assert(flags & 0x80 == 0 <==> flags < 0x80) by (bit_vector);
    assert(flags & 0x01 == 0 <==> flags % 2 == 0) by (bit_vector);
    assert(flags & 0x02 == 0 <==> (flags / 2) % 2 == 0) by (bit_vector);
    let f = cpu.flags;
    assert(f & 0x80 == 0 <==> f < 0x80) by (bit_vector);
    assert(f & 0x01 == 0 <==> f % 2 == 0) by (bit_vector);
    assert(f & 0x02 == 0 <==> (f / 2) % 2 == 0) by (bit_vector);
}


/// The interrupt vectors (NMI at 0xFFFA, reset at 0xFFFC, IRQ and BRK at 0xFFFE,
/// low byte first), the stack in page one, and relative branch targets: the offset
/// byte read as a signed number, added modulo 64 KiB.
pub proof fn law_vectors_stack_and_targets(sp: u8, pc: u16, offset: u8)
    ensures
        vector_lo(CpuEvent::NMI) == 0xFFFA && vector_hi(CpuEvent::NMI) == 0xFFFB,
        vector_lo(CpuEvent::Reset) == 0xFFFC && vector_hi(CpuEvent::Reset) == 0xFFFD,
        vector_lo(CpuEvent::IRQ) == 0xFFFE && vector_hi(CpuEvent::IRQ) == 0xFFFF,
        vector_lo(CpuEvent::BRK) == 0xFFFE && vector_hi(CpuEvent::BRK) == 0xFFFF,
        stack_addr(sp) == 256 + sp,
        (branch_target(pc, offset) - pc - (offset as i8) as int) % 65536 == 0,
{
    assert(offset < 128 ==> (offset as i8) as int == offset as int) by (bit_vector);
    assert(offset >= 128 ==> (offset as i8) as int == offset as int - 256) by (bit_vector);
}

} // verus!
