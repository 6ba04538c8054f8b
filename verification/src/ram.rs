use vstd::prelude::*;
use crate::bus::BusDevice;

verus! {

/// Size of the console's work RAM; every address on the A bus is folded onto it.
pub const RAM_SIZE: usize = 0x800;

/// The console's 2 KiB of work RAM, mapped at 0x0000..=0x1FFF of the A bus
/// and mirrored every 0x800 bytes there.
pub struct RAM {
    mem: [u8; 0x800],
}

/// The cell of work RAM that an A bus address selects.
pub open spec fn ram_cell(addr: u16) -> int {
    (addr as int) % (RAM_SIZE as int)
}

proof fn lemma_mask_is_cell(addr: u16)
    ensures
        (addr & 0x07FF) as int == ram_cell(addr),
        0 <= ram_cell(addr) < RAM_SIZE,
{
    assert(addr & 0x07FF == addr % 0x800) by (bit_vector);
}

impl View for RAM {
    type V = Seq<u8>;

    closed spec fn view(&self) -> Seq<u8> {
        self.mem@
    }
}

impl RAM {
    /// The work RAM always holds exactly `RAM_SIZE` bytes.
    pub proof fn lemma_size(&self)
        ensures
            self@.len() == RAM_SIZE,
    {
    }

    /// Work RAM at power-on: every byte reads 0xFF.
    pub fn new() -> (r: Self)
        ensures
            r@ == Seq::new(RAM_SIZE as nat, |i: int| 0xFFu8),
    {
        let r = RAM { mem: [0xFFu8; 0x800] };
        assert(r@ =~= Seq::new(RAM_SIZE as nat, |i: int| 0xFFu8));
        r
    }
}

impl BusDevice for RAM {
    open spec fn spec_abus_read(&self, addr: u16) -> u8 {
        self@[ram_cell(addr)]
    }

    open spec fn abus_read_ok(&self, addr: u16) -> bool {
        true
    }

    open spec fn abus_wrote(&self, addr: u16, val: u8, post: Self) -> bool {
        post@ == self@.update(ram_cell(addr), val)
    }

    open spec fn abus_write_ok(&self, addr: u16) -> bool {
        true
    }

    open spec fn spec_bbus_read(&self, addr: u16) -> u8 {
        0
    }

    open spec fn bbus_read_ok(&self, addr: u16) -> bool {
        true
    }

    open spec fn bbus_wrote(&self, addr: u16, val: u8, post: Self) -> bool {
        post@ == self@
    }

    open spec fn bbus_write_ok(&self, addr: u16) -> bool {
        true
    }

    open spec fn spec_bounds_abus(&self) -> (u16, u16) {
        (0x0000, 0x1FFF)
    }

    open spec fn spec_bounds_bbus(&self) -> (u16, u16) {
        (0, 0)
    }

    fn abus_read(&self, addr: u16) -> (r: u8) {
        proof {
            lemma_mask_is_cell(addr);
        }
        self.mem[(addr & 0x07FF) as usize]
    }

    fn abus_write(&mut self, addr: u16, val: u8) {
        proof {
            lemma_mask_is_cell(addr);
        }
        self.mem[(addr & 0x07FF) as usize] = val;
    }

    // no work RAM on the B bus
    fn bbus_read(&self, addr: u16) -> (r: u8) {
        0
    }

    // no work RAM on the B bus
    fn bbus_write(&mut self, addr: u16, val: u8) {
    }

    fn bounds_abus(&self) -> (r: (u16, u16)) {
        (0x0000, 0x1FFF)
    }

    fn bounds_bbus(&self) -> (r: (u16, u16)) {
        (0, 0)
    }
}

/// A write to work RAM is what a later read of the same address gives back.
pub proof fn law_ram_read_after_write(pre: RAM, addr: u16, val: u8, post: RAM)
    requires
        pre.abus_wrote(addr, val, post),
    ensures
        post.spec_abus_read(addr) == val,
{
    pre.lemma_size();
    lemma_mask_is_cell(addr);
}

/// A write to work RAM leaves every address of another cell as it was.
pub proof fn law_ram_write_keeps_other_cells(pre: RAM, addr: u16, val: u8, post: RAM, other: u16)
    requires
        pre.abus_wrote(addr, val, post),
        ram_cell(other) != ram_cell(addr),
    ensures
        post.spec_abus_read(other) == pre.spec_abus_read(other),
{
    pre.lemma_size();
    lemma_mask_is_cell(addr);
    lemma_mask_is_cell(other);
}

/// Work RAM is mirrored: addresses 0x800 apart read the same byte.
pub proof fn law_ram_mirrored(ram: RAM, addr: u16)
    requires
        addr as int + RAM_SIZE <= 0xFFFF,
    ensures
        ram.spec_abus_read((addr + RAM_SIZE) as u16) == ram.spec_abus_read(addr),
{
}


/// Work RAM answers 0x0000..=0x1FFF of the CPU bus (nothing of the PPU bus) and
/// folds the address onto its 2048 bytes.
pub proof fn law_ram_map(ram: RAM, addr: u16)
    ensures
        ram.spec_bounds_abus() == (0x0000u16, 0x1FFFu16),
        ram.spec_abus_read(addr) == ram@[(addr as int) % 2048],
        ram.spec_bbus_read(addr) == 0,
        ram@.len() == 2048,
{
}

} // verus!
