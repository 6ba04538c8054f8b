use vstd::prelude::*;
use crate::bus::BusDevice;
use vstd::arithmetic::div_mod::lemma_small_mod;
use vstd::slice::{slice_subrange, slice_to_vec};

verus! {

/// The cartridge memories handed to a mapper for a write.
pub struct CartMemRefsMut<'a> {
    /// program ROM
    pub prg_rom: &'a [u8],
    /// character ROM/RAM
    pub chr_mem: &'a mut [u8],
    /// program RAM
    pub prg_ram: &'a mut [u8],
    /// CIRAM, emulated as if it was on the cartridge
    pub nt_ram: &'a mut [u8],
}

/// The cartridge memories handed to a mapper for a read.
pub struct CartMemRefs<'a> {
    /// program ROM
    pub prg_rom: &'a [u8],
    /// character ROM/RAM
    pub chr_mem: &'a [u8],
    /// program RAM
    pub prg_ram: &'a [u8],
    /// CIRAM, emulated as if it was on the cartridge
    pub nt_ram: &'a [u8],
}

/// The contents of the four cartridge memories.
pub struct CartMemView {
    pub prg_rom: Seq<u8>,
    pub chr_mem: Seq<u8>,
    pub prg_ram: Seq<u8>,
    pub nt_ram: Seq<u8>,
}

impl<'a> View for CartMemRefs<'a> {
    type V = CartMemView;

    open spec fn view(&self) -> CartMemView {
        CartMemView {
            prg_rom: self.prg_rom@,
            chr_mem: self.chr_mem@,
            prg_ram: self.prg_ram@,
            nt_ram: self.nt_ram@,
        }
    }
}

impl<'a> CartMemRefsMut<'a> {
    /// The contents of the four memories as they are now.
    pub open spec fn current(&self) -> CartMemView {
        CartMemView {
            prg_rom: self.prg_rom@,
            chr_mem: self.chr_mem@,
            prg_ram: self.prg_ram@,
            nt_ram: self.nt_ram@,
        }
    }
}

pub enum NametableMirroring {
    FourScreen,
    Horizontal,
    Vertical,
    SingleScreenUpper,
    SingleScreenLower,
}

/// The nametable mirroring that the iNES header flags select.
pub open spec fn header_mirroring(vertical: bool, alt: bool) -> NametableMirroring {
    if alt {
        NametableMirroring::FourScreen
    } else if vertical {
        NametableMirroring::Vertical
    } else {
        NametableMirroring::Horizontal
    }
}

/// The address decoding of a cartridge board. What a board does is stated over the
/// contents of the cartridge memories (`CartMemView`).
pub trait Mapper: Sized {
    /// The byte a read at `addr` on the CPU bus gives.
    spec fn spec_abus_read(&self, addr: u16, mem: CartMemView) -> u8;

    /// A read at `addr` on the CPU bus is defined for these memories.
    spec fn abus_read_ok(&self, addr: u16, mem: CartMemView) -> bool;

    /// The board and the memories after a write of `val` at `addr` on the CPU bus.
    spec fn spec_abus_write(&self, addr: u16, val: u8, mem: CartMemView) -> (Self, CartMemView);

    /// A write at `addr` on the CPU bus is defined for these memories.
    spec fn abus_write_ok(&self, addr: u16, mem: CartMemView) -> bool;

    /// The byte a read at `addr` on the PPU bus gives.
    spec fn spec_bbus_read(&self, addr: u16, mem: CartMemView) -> u8;

    /// A read at `addr` on the PPU bus is defined for these memories.
    spec fn bbus_read_ok(&self, addr: u16, mem: CartMemView) -> bool;

    /// The board and the memories after a write of `val` at `addr` on the PPU bus.
    spec fn spec_bbus_write(&self, addr: u16, val: u8, mem: CartMemView) -> (Self, CartMemView);

    /// A write at `addr` on the PPU bus is defined for these memories.
    spec fn bbus_write_ok(&self, addr: u16, mem: CartMemView) -> bool;

    /// The board's name.
    spec fn spec_mapper_name(&self) -> Seq<char>;

    fn abus_read(&self, addr: u16, refs: CartMemRefs) -> (r: u8)
        requires
            self.abus_read_ok(addr, refs@),
        ensures
            r == self.spec_abus_read(addr, refs@),
    ;

    fn abus_write(&mut self, addr: u16, val: u8, refs: CartMemRefsMut)
        requires
            old(self).abus_write_ok(addr, refs.current()),
        ensures
            old(self).spec_abus_write(
                addr,
                val,
                (CartMemView {
                    prg_rom: refs.prg_rom@,
                    chr_mem: old(refs.chr_mem)@,
                    prg_ram: old(refs.prg_ram)@,
                    nt_ram: old(refs.nt_ram)@,
                }),
            ) == (*final(self), (CartMemView {
                prg_rom: refs.prg_rom@,
                chr_mem: final(refs.chr_mem)@,
                prg_ram: final(refs.prg_ram)@,
                nt_ram: final(refs.nt_ram)@,
            })),
    ;

    fn bbus_read(&self, addr: u16, refs: CartMemRefs) -> (r: u8)
        requires
            self.bbus_read_ok(addr, refs@),
        ensures
            r == self.spec_bbus_read(addr, refs@),
    ;

    fn bbus_write(&mut self, addr: u16, val: u8, refs: CartMemRefsMut)
        requires
            old(self).bbus_write_ok(addr, refs.current()),
        ensures
            old(self).spec_bbus_write(
                addr,
                val,
                (CartMemView {
                    prg_rom: refs.prg_rom@,
                    chr_mem: old(refs.chr_mem)@,
                    prg_ram: old(refs.prg_ram)@,
                    nt_ram: old(refs.nt_ram)@,
                }),
            ) == (*final(self), (CartMemView {
                prg_rom: refs.prg_rom@,
                chr_mem: final(refs.chr_mem)@,
                prg_ram: final(refs.prg_ram)@,
                nt_ram: final(refs.nt_ram)@,
            })),
    ;

    fn mapper_name(&self) -> (r: String)
        ensures
            r@ == self.spec_mapper_name(),
    ;
}

/// Board 0 (NROM): fixed program ROM at 0x8000, program RAM at 0x6000, CHR at 0x0000.
pub struct NromMapper {
    pub mirroring: NametableMirroring,
}

impl NromMapper {
    pub fn new(nt_mirroring_vertical: bool, nt_mirroring_alt: bool) -> (r: Option<Self>)
        ensures
            r == Some(NromMapper { mirroring: header_mirroring(nt_mirroring_vertical, nt_mirroring_alt) }),
    {
        let mirroring = if nt_mirroring_alt {
            NametableMirroring::FourScreen
        } else {
            if nt_mirroring_vertical {
                NametableMirroring::Vertical
            } else {
                NametableMirroring::Horizontal
            }
        };

        Some(Self { mirroring: mirroring })
    }
}

/// The address lies in the program RAM window 0x6000..=0x7FFF.
pub open spec fn in_prg_ram_window(addr: u16) -> bool {
    0x6000 <= addr <= 0x7FFF
}

impl Mapper for NromMapper {
    open spec fn spec_abus_read(&self, addr: u16, mem: CartMemView) -> u8 {
        if in_prg_ram_window(addr) {
            if mem.prg_ram.len() == 0 {
                0
            } else {
                mem.prg_ram[(addr - 0x6000) % (mem.prg_ram.len() as int)]
            }
        } else if addr >= 0x8000 {
            mem.prg_rom[(addr - 0x8000) % (mem.prg_rom.len() as int)]
        } else {
            0
        }
    }

    open spec fn abus_read_ok(&self, addr: u16, mem: CartMemView) -> bool {
        addr >= 0x8000 ==> (mem.prg_rom.len() > 0 && addr - 0x8000 != mem.prg_rom.len())
    }

    open spec fn spec_abus_write(&self, addr: u16, val: u8, mem: CartMemView) -> (Self, CartMemView) {
        if in_prg_ram_window(addr) {
            (
                *self,
                CartMemView {
                    prg_ram: mem.prg_ram.update((addr - 0x6000) % (mem.prg_ram.len() as int), val),
                    ..mem
                },
            )
        } else {
            (*self, mem)
        }
    }

    open spec fn abus_write_ok(&self, addr: u16, mem: CartMemView) -> bool {
        in_prg_ram_window(addr) ==> mem.prg_ram.len() > 0
    }

    open spec fn spec_bbus_read(&self, addr: u16, mem: CartMemView) -> u8 {
        if addr <= 0x1FFF {
            mem.chr_mem[addr as int]
        } else {
            0
        }
    }

    open spec fn bbus_read_ok(&self, addr: u16, mem: CartMemView) -> bool {
        addr <= 0x1FFF ==> addr < mem.chr_mem.len()
    }

    open spec fn spec_bbus_write(&self, addr: u16, val: u8, mem: CartMemView) -> (Self, CartMemView) {
        (*self, mem)
    }

    open spec fn bbus_write_ok(&self, addr: u16, mem: CartMemView) -> bool {
        true
    }

    open spec fn spec_mapper_name(&self) -> Seq<char> {
        seq!['N', 'R', 'O', 'M']
    }

    fn abus_read(&self, addr: u16, refs: CartMemRefs) -> (r: u8) {
        if addr >= 0x6000 && addr <= 0x7FFF {
            if refs.prg_ram.len() == 0 {
                return 0;
            }
            let realaddr = (addr - 0x6000) as usize % refs.prg_ram.len();
            return refs.prg_ram[realaddr];
        } else if addr >= 0x8000 {
            let realaddr = (addr - 0x8000) as usize;

            if realaddr <= refs.prg_rom.len() {
                proof {
                    lemma_small_mod(realaddr as nat, refs.prg_rom@.len());
                }
                return refs.prg_rom[realaddr];
            } else {
                return refs.prg_rom[realaddr % refs.prg_rom.len()];
            }
        }
        return 0;
    }

    fn abus_write(&mut self, addr: u16, val: u8, refs: CartMemRefsMut) {
        if addr >= 0x6000 && addr <= 0x7FFF {
            let realaddr = (addr - 0x6000) as usize % refs.prg_ram.len();
            refs.prg_ram[realaddr] = val;
        }
    }

    fn bbus_read(&self, addr: u16, refs: CartMemRefs) -> (r: u8) {
        if addr <= 0x1FFF {
            let realaddr = addr as usize;

            return refs.chr_mem[realaddr];
        }

        return 0;  // CIRAM is not mapped yet
    }

    // NROM doesn't map anything writable on the B bus
    fn bbus_write(&mut self, addr: u16, val: u8, refs: CartMemRefsMut) {
    }

    fn mapper_name(&self) -> (r: String) {
        let r = "NROM".to_owned();
        proof {
            reveal_strlit("NROM");
        }
        r
    }
}

/// The boards this emulator knows.
pub enum CartMapper {
    Nrom(NromMapper),
}

impl Mapper for CartMapper {
    open spec fn spec_abus_read(&self, addr: u16, mem: CartMemView) -> u8 {
        match self {
            CartMapper::Nrom(m) => m.spec_abus_read(addr, mem),
        }
    }

    open spec fn abus_read_ok(&self, addr: u16, mem: CartMemView) -> bool {
        match self {
            CartMapper::Nrom(m) => m.abus_read_ok(addr, mem),
        }
    }

    open spec fn spec_abus_write(&self, addr: u16, val: u8, mem: CartMemView) -> (Self, CartMemView) {
        match self {
            CartMapper::Nrom(m) => {
                let (b, v) = m.spec_abus_write(addr, val, mem);
                (CartMapper::Nrom(b), v)
            },
        }
    }

    open spec fn abus_write_ok(&self, addr: u16, mem: CartMemView) -> bool {
        match self {
            CartMapper::Nrom(m) => m.abus_write_ok(addr, mem),
        }
    }

    open spec fn spec_bbus_read(&self, addr: u16, mem: CartMemView) -> u8 {
        match self {
            CartMapper::Nrom(m) => m.spec_bbus_read(addr, mem),
        }
    }

    open spec fn bbus_read_ok(&self, addr: u16, mem: CartMemView) -> bool {
        match self {
            CartMapper::Nrom(m) => m.bbus_read_ok(addr, mem),
        }
    }

    open spec fn spec_bbus_write(&self, addr: u16, val: u8, mem: CartMemView) -> (Self, CartMemView) {
        match self {
            CartMapper::Nrom(m) => {
                let (b, v) = m.spec_bbus_write(addr, val, mem);
                (CartMapper::Nrom(b), v)
            },
        }
    }

    open spec fn bbus_write_ok(&self, addr: u16, mem: CartMemView) -> bool {
        match self {
            CartMapper::Nrom(m) => m.bbus_write_ok(addr, mem),
        }
    }

    open spec fn spec_mapper_name(&self) -> Seq<char> {
        match self {
            CartMapper::Nrom(m) => m.spec_mapper_name(),
        }
    }

    fn abus_read(&self, addr: u16, refs: CartMemRefs) -> (r: u8) {
        match self {
            CartMapper::Nrom(m) => m.abus_read(addr, refs),
        }
    }

    fn abus_write(&mut self, addr: u16, val: u8, refs: CartMemRefsMut) {
        match self {
            CartMapper::Nrom(m) => m.abus_write(addr, val, refs),
        }
    }

    fn bbus_read(&self, addr: u16, refs: CartMemRefs) -> (r: u8) {
        match self {
            CartMapper::Nrom(m) => m.bbus_read(addr, refs),
        }
    }

    fn bbus_write(&mut self, addr: u16, val: u8, refs: CartMemRefsMut) {
        match self {
            CartMapper::Nrom(m) => m.bbus_write(addr, val, refs),
        }
    }

    fn mapper_name(&self) -> (r: String) {
        match self {
            CartMapper::Nrom(m) => m.mapper_name(),
        }
    }
}

/// Chooses the board for an iNES mapper number; only NROM (0) is known.
fn new_mapper(mapper_num: u8, nt_mirroring_vertical: bool, nt_mirroring_alt: bool) -> (r: Option<CartMapper>)
    ensures
        mapper_num == 0 ==> r == Some(CartMapper::Nrom(NromMapper { mirroring: header_mirroring(nt_mirroring_vertical, nt_mirroring_alt) })),
        mapper_num != 0 ==> r is None,
{
    match mapper_num {
        0 => Some(CartMapper::Nrom(NromMapper::new(nt_mirroring_vertical, nt_mirroring_alt)?)),
        _ => None,
    }
}

/// A loaded cartridge: its memories and its board.
pub struct Cartrige {
    pub prg_rom: Vec<u8>,
    pub prg_ram: Vec<u8>,
    pub chr_rom: Vec<u8>,
    pub nt_ram: Vec<u8>,
    pub mapper: CartMapper,
}

/// The iNES header is 16 bytes long.
pub const INES_HEADER_SIZE: usize = 16;

/// The trainer, when present, is 512 bytes long.
pub const TRAINER_SIZE: usize = 512;

/// The file starts with the iNES magic "NES\x1A".
pub open spec fn has_ines_magic(rom: Seq<u8>) -> bool {
    &&& rom.len() >= 4
    &&& rom[0] == 0x4E
    &&& rom[1] == 0x45
    &&& rom[2] == 0x53
    &&& rom[3] == 0x1A
}

/// Every header byte that the header checks look at is present: the magic is
/// compared byte by byte, and the flag bytes are read only once it matched.
pub open spec fn header_readable(rom: Seq<u8>) -> bool {
    &&& rom.len() >= 1
    &&& rom[0] == 0x4E ==> rom.len() >= 2
    &&& (rom[0] == 0x4E && rom[1] == 0x45) ==> rom.len() >= 3
    &&& (rom[0] == 0x4E && rom[1] == 0x45 && rom[2] == 0x53) ==> rom.len() >= 4
    &&& has_ines_magic(rom) ==> rom.len() >= 8
}

/// The mapper number: low nibble from the upper nibble of flags 6, high nibble
/// from the upper nibble of flags 7.
pub open spec fn mapper_number(rom: Seq<u8>) -> u8 {
    ((rom[6] & 0xF0) >> 4) | (rom[7] & 0xF0)
}

/// Size of the trainer that precedes the program ROM (flags 6, bit 2).
pub open spec fn trainer_len(rom: Seq<u8>) -> int {
    if rom[6] & 4 == 0 {
        0
    } else {
        TRAINER_SIZE as int
    }
}

/// Where the program ROM starts in the file.
pub open spec fn prg_rom_start(rom: Seq<u8>) -> int {
    INES_HEADER_SIZE + trainer_len(rom)
}

/// Where the program ROM ends (and the character ROM starts): 16 KiB units.
pub open spec fn prg_rom_end(rom: Seq<u8>) -> int {
    prg_rom_start(rom) + 16384 * rom[4]
}

/// Where the character ROM ends: 8 KiB units.
pub open spec fn chr_rom_end(rom: Seq<u8>) -> int {
    prg_rom_end(rom) + 8192 * rom[5]
}

/// The file is an iNES image whose mapper number is in the assigned range.
pub open spec fn spec_is_valid_rom(rom: Seq<u8>) -> bool {
    has_ines_magic(rom) && mapper_number(rom) <= 232
}

/// The file is an iNES image of a known board that holds all the ROM its header announces.
pub open spec fn rom_loadable(rom: Seq<u8>) -> bool {
    &&& has_ines_magic(rom)
    &&& mapper_number(rom) == 0
    &&& rom.len() >= chr_rom_end(rom)
}

impl Cartrige {
    /// The contents of the cartridge memories.
    pub open spec fn mem_view(&self) -> CartMemView {
        CartMemView {
            prg_rom: self.prg_rom@,
            chr_mem: self.chr_rom@,
            prg_ram: self.prg_ram@,
            nt_ram: self.nt_ram@,
        }
    }

    /// The cartridge is the one that the loadable iNES image `rom` describes.
    pub open spec fn loaded_from(&self, rom: Seq<u8>) -> bool {
        &&& rom_loadable(rom)
        &&& self.prg_rom@ == rom.subrange(prg_rom_start(rom), prg_rom_end(rom))
        &&& self.chr_rom@ == rom.subrange(prg_rom_end(rom), chr_rom_end(rom))
        &&& self.prg_ram@.len() == 0
        &&& self.nt_ram@.len() == 0
        &&& self.mapper == CartMapper::Nrom(
            NromMapper { mirroring: header_mirroring(rom[6] & 1 != 0, rom[6] & 8 != 0) },
        )
    }

    /// Loads an iNES image. `None` when the magic is missing, the board is unknown
    /// or the file is shorter than its header announces.
    pub fn load_rom(rom: &[u8]) -> (r: Option<Self>)
        requires
            header_readable(rom@),
        ensures
            r is Some <==> rom_loadable(rom@),
            r matches Some(c) ==> c.loaded_from(rom@),
    {
        if rom[0] == 0x4E && rom[1] == 0x45 && rom[2] == 0x53 && rom[3] == 0x1A {  // "NES\x1A"
            let mapper_num = ((rom[6] & 0xF0) >> 4) | (rom[7] & 0xF0);

            let flags6 = rom[6];
            proof {
                assert(flags6 & (1u8 << 2) == flags6 & 4) by (bit_vector);
                assert(flags6 & (1u8 << 3) == flags6 & 8) by (bit_vector);
            }
            let nt_mirroring_vertical = rom[6] & 1 != 0;
            let nt_mirroring_alt = rom[6] & (1 << 3) != 0;
            let has_prgram = rom[6] & (1 << 2) != 0;

            let prgrom_size: usize = 16384 * rom[4] as usize;
            let chrrom_size: usize = 8192 * rom[5] as usize;
            let trainer_size: usize = if rom[6] & (1 << 2) == 0 {
                0
            } else {
                TRAINER_SIZE
            };

            let mut prgram_size: usize = 8192 * rom[7] as usize;
            if has_prgram && prgram_size == 0 {
                prgram_size = 8192;
            }

            if let Some(mapper) = new_mapper(mapper_num, nt_mirroring_vertical, nt_mirroring_alt) {
                let prg_start: usize = INES_HEADER_SIZE + trainer_size;
                let prg_end: usize = prg_start + prgrom_size;

                let chr_start: usize = prg_end;
                let chr_end: usize = chr_start + chrrom_size;

                // let's rather not panic on a corrupted header
                if rom.len() < chr_end {
                    return None;
                }
                let mut prgram: Vec<u8> = Vec::new();
                prgram.reserve(prgram_size);
                let mut ntram: Vec<u8> = Vec::new();  // RAM for nametable, emulated as if it's on the cartridge
                ntram.reserve(4096);  // always reserve full 4 KiB even if mirroring would make it unneeded
                return Some(
                    Self {
                        prg_rom: slice_to_vec(slice_subrange(rom, prg_start, prg_end)),
                        chr_rom: slice_to_vec(slice_subrange(rom, chr_start, chr_end)),
                        prg_ram: prgram,
                        nt_ram: ntram,
                        mapper: mapper,
                    },
                );
            }
        }
        None
    }
}

impl BusDevice for Cartrige {
    open spec fn spec_abus_read(&self, addr: u16) -> u8 {
        self.mapper.spec_abus_read(addr, self.mem_view())
    }

    open spec fn abus_read_ok(&self, addr: u16) -> bool {
        self.mapper.abus_read_ok(addr, self.mem_view())
    }

    open spec fn abus_wrote(&self, addr: u16, val: u8, post: Self) -> bool {
        let (m, v) = self.mapper.spec_abus_write(addr, val, self.mem_view());
        post.mapper == m && post.mem_view() == v
    }

    open spec fn abus_write_ok(&self, addr: u16) -> bool {
        self.mapper.abus_write_ok(addr, self.mem_view())
    }

    open spec fn spec_bbus_read(&self, addr: u16) -> u8 {
        self.mapper.spec_bbus_read(addr, self.mem_view())
    }

    open spec fn bbus_read_ok(&self, addr: u16) -> bool {
        self.mapper.bbus_read_ok(addr, self.mem_view())
    }

    open spec fn bbus_wrote(&self, addr: u16, val: u8, post: Self) -> bool {
        let (m, v) = self.mapper.spec_bbus_write(addr, val, self.mem_view());
        post.mapper == m && post.mem_view() == v
    }

    open spec fn bbus_write_ok(&self, addr: u16) -> bool {
        self.mapper.bbus_write_ok(addr, self.mem_view())
    }

    open spec fn spec_bounds_abus(&self) -> (u16, u16) {
        (0x4020, 0xFFFF)
    }

    open spec fn spec_bounds_bbus(&self) -> (u16, u16) {
        (0x0000, 0x2FFF)
    }

    fn abus_read(&self, addr: u16) -> (r: u8) {
        self.mapper.abus_read(
            addr,
            CartMemRefs {
                prg_rom: self.prg_rom.as_slice(),
                chr_mem: self.chr_rom.as_slice(),
                prg_ram: self.prg_ram.as_slice(),
                nt_ram: self.nt_ram.as_slice(),
            },
        )
    }

    fn abus_write(&mut self, addr: u16, val: u8) {
        self.mapper.abus_write(
            addr,
            val,
            CartMemRefsMut {
                prg_rom: self.prg_rom.as_slice(),
                chr_mem: self.chr_rom.as_mut_slice(),
                prg_ram: self.prg_ram.as_mut_slice(),
                nt_ram: self.nt_ram.as_mut_slice(),
            },
        )
    }

    fn bbus_read(&self, addr: u16) -> (r: u8) {
        self.mapper.bbus_read(
            addr,
            CartMemRefs {
                prg_rom: self.prg_rom.as_slice(),
                chr_mem: self.chr_rom.as_slice(),
                prg_ram: self.prg_ram.as_slice(),
                nt_ram: self.nt_ram.as_slice(),
            },
        )
    }

    fn bbus_write(&mut self, addr: u16, val: u8) {
        self.mapper.bbus_write(
            addr,
            val,
            CartMemRefsMut {
                prg_rom: self.prg_rom.as_slice(),
                chr_mem: self.chr_rom.as_mut_slice(),
                prg_ram: self.prg_ram.as_mut_slice(),
                nt_ram: self.nt_ram.as_mut_slice(),
            },
        )
    }

    fn bounds_abus(&self) -> (r: (u16, u16)) {
        (0x4020, 0xFFFF)
    }

    fn bounds_bbus(&self) -> (r: (u16, u16)) {
        (0x0000, 0x2FFF)
    }
}

/// Whether the header checks of `is_valid_rom` and `load_rom` can read every byte
/// they look at.
pub fn header_is_readable(rom: &[u8]) -> (r: bool)
    ensures
        r == header_readable(rom@),
{
    if rom.len() < 1 {
        return false;
    }
    if rom[0] != 0x4E {
        return true;
    }
    if rom.len() < 2 {
        return false;
    }
    if rom[1] != 0x45 {
        return true;
    }
    if rom.len() < 3 {
        return false;
    }
    if rom[2] != 0x53 {
        return true;
    }
    if rom.len() < 4 {
        return false;
    }
    if rom[3] != 0x1A {
        return true;
    }
    rom.len() >= 8
}

/// Whether `rom` is an iNES image of a board in the assigned range.
pub fn is_valid_rom(rom: &[u8]) -> (r: bool)
    requires
        header_readable(rom@),
    ensures
        r == spec_is_valid_rom(rom@),
{
    // "NES\x1A", means its an iNES header
    if rom[0] == 0x4E && rom[1] == 0x45 && rom[2] == 0x53 && rom[3] == 0x1A {
        let mapper_num = ((rom[6] & 0xF0) >> 4) | (rom[7] & 0xF0);
        if mapper_num > 232 {
            return false;  // invalid mapper number
        }
        return true;
    }
    return false;  // not an NES file
}

impl Cartrige {
    /// Whether a CPU bus read at `addr` is defined for this cartridge.
    pub fn abus_readable(&self, addr: u16) -> (r: bool)
        ensures
            r == self.abus_read_ok(addr),
    {
        match self.mapper {
            CartMapper::Nrom(_) => addr < 0x8000 || (self.prg_rom.len() > 0 && (addr - 0x8000) as usize
                != self.prg_rom.len()),
        }
    }

    /// Whether a CPU bus write at `addr` is defined for this cartridge.
    pub fn abus_writable(&self, addr: u16) -> (r: bool)
        ensures
            r == self.abus_write_ok(addr),
    {
        match self.mapper {
            CartMapper::Nrom(_) => !(addr >= 0x6000 && addr <= 0x7FFF) || self.prg_ram.len() > 0,
        }
    }

    /// Whether a PPU bus read at `addr` is defined for this cartridge.
    pub fn bbus_readable(&self, addr: u16) -> (r: bool)
        ensures
            r == self.bbus_read_ok(addr),
    {
        match self.mapper {
            CartMapper::Nrom(_) => addr > 0x1FFF || (addr as usize) < self.chr_rom.len(),
        }
    }
}

/// Every image that loads passes the validity check.
pub proof fn law_loadable_rom_is_valid(rom: Seq<u8>)
    requires
        rom_loadable(rom),
    ensures
        spec_is_valid_rom(rom),
{
}

/// NROM mirrors its program ROM over 0x8000..=0xFFFF: two addresses one ROM
/// length apart read the same byte.
pub proof fn law_prg_rom_mirrored(c: Cartrige, addr: u16)
    requires
        addr >= 0x8000,
        addr + c.prg_rom@.len() <= 0xFFFF,
        c.abus_read_ok(addr),
        c.abus_read_ok((addr + c.prg_rom@.len()) as u16),
    ensures
        c.spec_abus_read((addr + c.prg_rom@.len()) as u16) == c.spec_abus_read(addr),
{
    let len = c.prg_rom@.len() as int;
    let r = addr - 0x8000;
    assert((r + len) % len == r % len) by {
        vstd::arithmetic::div_mod::lemma_mod_add_multiples_vanish(r, len);
    }
}

/// Outside the program RAM window the cartridge ignores CPU writes: its ROM is read-only.
pub proof fn law_rom_ignores_writes(c: Cartrige, addr: u16, val: u8, post: Cartrige)
    requires
        !in_prg_ram_window(addr),
        c.abus_wrote(addr, val, post),
    ensures
        post.mem_view() == c.mem_view(),
        post.mapper == c.mapper,
{
}

/// A CPU write in the program RAM window is what a later read of that address gives back.
pub proof fn law_prg_ram_read_after_write(c: Cartrige, addr: u16, val: u8, post: Cartrige)
    requires
        in_prg_ram_window(addr),
        c.abus_write_ok(addr),
        c.abus_wrote(addr, val, post),
    ensures
        post.spec_abus_read(addr) == val,
{
}

/// A freshly loaded cartridge has no program RAM yet: its window reads 0 and
/// rejects writes.
pub proof fn law_loaded_prg_ram_window(c: Cartrige, rom: Seq<u8>, addr: u16)
    requires
        c.loaded_from(rom),
        in_prg_ram_window(addr),
    ensures
        c.spec_abus_read(addr) == 0,
        !c.abus_write_ok(addr),
{
}

/// The PPU bus sees the character ROM from 0x0000 to 0x1FFF and nothing it can write.
pub proof fn law_chr_on_ppu_bus(c: Cartrige, addr: u16, val: u8, post: Cartrige)
    requires
        addr <= 0x1FFF,
        c.bbus_read_ok(addr),
        c.bbus_wrote(addr, val, post),
    ensures
        c.spec_bbus_read(addr) == c.chr_rom@[addr as int],
        post.mem_view() == c.mem_view(),
{
}


/// The mirroring flags: the four-screen bit alone selects four-screen mirroring;
/// otherwise the vertical bit chooses vertical or horizontal.
pub proof fn law_header_mirroring(vertical: bool)
    ensures
        header_mirroring(vertical, true) == NametableMirroring::FourScreen,
        header_mirroring(true, false) == NametableMirroring::Vertical,
        header_mirroring(false, false) == NametableMirroring::Horizontal,
{
}

/// A loaded cartridge's mirroring follows flags 6 of the header: bit 3 set gives
/// four-screen, else bit 0 set vertical, else horizontal.
pub proof fn law_loaded_mirroring(c: Cartrige, rom: Seq<u8>)
    requires
        c.loaded_from(rom),
    ensures
        c.mapper matches CartMapper::Nrom(m) && {
            &&& rom[6] / 8 % 2 == 1 ==> m.mirroring == NametableMirroring::FourScreen
            &&& (rom[6] / 8 % 2 == 0 && rom[6] % 2 == 1) ==> m.mirroring
                == NametableMirroring::Vertical
            &&& (rom[6] / 8 % 2 == 0 && rom[6] % 2 == 0) ==> m.mirroring
                == NametableMirroring::Horizontal
        },
{
    let f = rom[6];
    assert(f & 8 != 0 <==> f / 8 % 2 == 1) by (bit_vector);
    assert(f & 1 != 0 <==> f % 2 == 1) by (bit_vector);
}

/// The mapper number is the upper nibble of flags 6 (low digit) and the upper
/// nibble of flags 7 (high digit).
pub proof fn law_mapper_number(rom: Seq<u8>)
    requires
        rom.len() >= 8,
    ensures
        mapper_number(rom) == rom[6] / 16 + (rom[7] / 16) * 16,
{
    let a = rom[6];
    let b = rom[7];
    assert(((a & 0xF0) >> 4) | (b & 0xF0) == a / 16 + (b / 16) * 16) by (bit_vector);
}

/// An image is valid exactly when it starts with "NES\x1A" and its mapper number
/// (flags 6 upper nibble, flags 7 upper nibble as the high digit) is at most 232.
pub proof fn law_valid_rom_header(rom: Seq<u8>)
    requires
        header_readable(rom),
    ensures
        spec_is_valid_rom(rom) <==> (rom.len() >= 8 && rom[0] == 0x4E && rom[1] == 0x45 && rom[2]
            == 0x53 && rom[3] == 0x1A && rom[6] / 16 + (rom[7] / 16) * 16 <= 232),
{
    if rom.len() >= 8 {
        law_mapper_number(rom);
    }
}

/// An image loads exactly when it starts with "NES\x1A", its mapper number is 0
/// (both upper nibbles of flags 6 and 7 clear), and it holds at least the 16-byte
/// header, the 512-byte trainer when flags 6 bit 2 is set, 16 KiB per PRG bank
/// (byte 4) and 8 KiB per CHR bank (byte 5). The cartridge holds those two ROMs.
pub proof fn law_loadable_layout(rom: Seq<u8>, c: Cartrige)
    requires
        header_readable(rom),
    ensures
        rom_loadable(rom) <==> (rom.len() >= 8 && rom[0] == 0x4E && rom[1] == 0x45 && rom[2]
            == 0x53 && rom[3] == 0x1A && rom[6] / 16 == 0 && rom[7] / 16 == 0 && rom.len() >= 16
            + (if rom[6] / 4 % 2 == 1 {
            512int
        } else {
            0int
        }) + 16384 * rom[4] + 8192 * rom[5]),
        c.loaded_from(rom) ==> ({
            let t: int = if rom[6] / 4 % 2 == 1 {
                512
            } else {
                0
            };
            &&& c.prg_rom@ == rom.subrange(16 + t, 16 + t + 16384 * rom[4])
            &&& c.chr_rom@ == rom.subrange(
                16 + t + 16384 * rom[4],
                16 + t + 16384 * rom[4] + 8192 * rom[5],
            )
            &&& c.prg_rom@.len() == 16384 * rom[4]
            &&& c.chr_rom@.len() == 8192 * rom[5]
        }),
{
    if rom.len() >= 8 {
        law_mapper_number(rom);
        let f = rom[6];
        assert(f & 4 == 0 <==> f / 4 % 2 == 0) by (bit_vector);
    }
}

/// Bytes after the ROMs the header announces are ignored: appending them keeps an
/// image loadable, and the cartridge it gives is the same.
pub proof fn law_trailing_bytes_ignored(rom: Seq<u8>, extra: Seq<u8>, c: Cartrige)
    ensures
        rom_loadable(rom) ==> rom_loadable(rom + extra),
        c.loaded_from(rom) ==> c.loaded_from(rom + extra),
{
    let r2 = rom + extra;
    if rom_loadable(rom) {
        assert(r2[0] == rom[0] && r2[1] == rom[1] && r2[2] == rom[2] && r2[3] == rom[3] && r2[4]
            == rom[4] && r2[5] == rom[5] && r2[6] == rom[6] && r2[7] == rom[7]);
        assert(mapper_number(r2) == mapper_number(rom));
        assert(chr_rom_end(r2) == chr_rom_end(rom));
        assert(rom.subrange(prg_rom_start(rom), prg_rom_end(rom)) =~= r2.subrange(
            prg_rom_start(r2),
            prg_rom_end(r2),
        ));
        assert(rom.subrange(prg_rom_end(rom), chr_rom_end(rom)) =~= r2.subrange(
            prg_rom_end(r2),
            chr_rom_end(r2),
        ));
    }
}


/// The cartridge's address map under NROM: it answers 0x4020..=0xFFFF of the CPU
/// bus and 0x0000..=0x2FFF of the PPU bus; the program ROM is seen from 0x8000,
/// repeated every ROM length, the program RAM from 0x6000 to 0x7FFF (0 when there
/// is none), the character ROM from 0x0000 to 0x1FFF; everything else reads 0.
pub proof fn law_cartridge_map(c: Cartrige, addr: u16)
    ensures
        c.spec_bounds_abus() == (0x4020u16, 0xFFFFu16),
        c.spec_bounds_bbus() == (0x0000u16, 0x2FFFu16),
        addr >= 32768 ==> c.spec_abus_read(addr) == c.prg_rom@[(addr - 32768) % (c.prg_rom@.len() as int)],
        (24576 <= addr < 32768 && c.prg_ram@.len() > 0) ==> c.spec_abus_read(addr)
            == c.prg_ram@[(addr - 24576) % (c.prg_ram@.len() as int)],
        (24576 <= addr < 32768 && c.prg_ram@.len() == 0) ==> c.spec_abus_read(addr) == 0,
        addr < 24576 ==> c.spec_abus_read(addr) == 0,
        addr < 8192 ==> c.spec_bbus_read(addr) == c.chr_rom@[addr as int],
        addr >= 8192 ==> c.spec_bbus_read(addr) == 0,
{
    match c.mapper {
        CartMapper::Nrom(_) => {},
    }
}

} // verus!
