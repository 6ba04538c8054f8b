use vstd::prelude::*;
use crate::cartrige::{Cartrige, header_readable, rom_loadable, prg_rom_start};
use crate::cpu::Cpu6502;
use crate::ram::RAM;

verus! {

/// A device on the console's two buses: the A bus (CPU address space) and the
/// B bus (PPU address space). Each device answers the addresses within its bounds.
pub trait BusDevice: Sized {
    /// The byte a read at `addr` on the A bus gives.
    spec fn spec_abus_read(&self, addr: u16) -> u8;

    /// A read at `addr` on the A bus is defined.
    spec fn abus_read_ok(&self, addr: u16) -> bool;

    /// `post` is this device after a write of `val` at `addr` on the A bus.
    spec fn abus_wrote(&self, addr: u16, val: u8, post: Self) -> bool;

    /// A write at `addr` on the A bus is defined.
    spec fn abus_write_ok(&self, addr: u16) -> bool;

    /// The byte a read at `addr` on the B bus gives.
    spec fn spec_bbus_read(&self, addr: u16) -> u8;

    /// A read at `addr` on the B bus is defined.
    spec fn bbus_read_ok(&self, addr: u16) -> bool;

    /// `post` is this device after a write of `val` at `addr` on the B bus.
    spec fn bbus_wrote(&self, addr: u16, val: u8, post: Self) -> bool;

    /// A write at `addr` on the B bus is defined.
    spec fn bbus_write_ok(&self, addr: u16) -> bool;

    /// The first and last A bus address the device answers.
    spec fn spec_bounds_abus(&self) -> (u16, u16);

    /// The first and last B bus address the device answers.
    spec fn spec_bounds_bbus(&self) -> (u16, u16);

    fn abus_read(&self, addr: u16) -> (r: u8)
        requires
            self.abus_read_ok(addr),
        ensures
            r == self.spec_abus_read(addr),
    ;

    fn abus_write(&mut self, addr: u16, val: u8)
        requires
            old(self).abus_write_ok(addr),
        ensures
            old(self).abus_wrote(addr, val, *final(self)),
    ;

    fn bbus_read(&self, addr: u16) -> (r: u8)
        requires
            self.bbus_read_ok(addr),
        ensures
            r == self.spec_bbus_read(addr),
    ;

    fn bbus_write(&mut self, addr: u16, val: u8)
        requires
            old(self).bbus_write_ok(addr),
        ensures
            old(self).bbus_wrote(addr, val, *final(self)),
    ;

    fn bounds_abus(&self) -> (r: (u16, u16))
        ensures
            r == self.spec_bounds_abus(),
    ;

    fn bounds_bbus(&self) -> (r: (u16, u16))
        ensures
            r == self.spec_bounds_bbus(),
    ;
}

/// The devices that can sit on the buses.
pub enum Device {
    Cartrige(Cartrige),
    Ram(RAM),
}

impl BusDevice for Device {
    open spec fn spec_abus_read(&self, addr: u16) -> u8 {
        match self {
            Device::Cartrige(c) => c.spec_abus_read(addr),
            Device::Ram(r) => r.spec_abus_read(addr),
        }
    }

    open spec fn abus_read_ok(&self, addr: u16) -> bool {
        match self {
            Device::Cartrige(c) => c.abus_read_ok(addr),
            Device::Ram(r) => r.abus_read_ok(addr),
        }
    }

    open spec fn abus_wrote(&self, addr: u16, val: u8, post: Self) -> bool {
        match self {
            Device::Cartrige(c) => post matches Device::Cartrige(p) && c.abus_wrote(addr, val, p),
            Device::Ram(r) => post matches Device::Ram(p) && r.abus_wrote(addr, val, p),
        }
    }

    open spec fn abus_write_ok(&self, addr: u16) -> bool {
        match self {
            Device::Cartrige(c) => c.abus_write_ok(addr),
            Device::Ram(r) => r.abus_write_ok(addr),
        }
    }

    open spec fn spec_bbus_read(&self, addr: u16) -> u8 {
        match self {
            Device::Cartrige(c) => c.spec_bbus_read(addr),
            Device::Ram(r) => r.spec_bbus_read(addr),
        }
    }

    open spec fn bbus_read_ok(&self, addr: u16) -> bool {
        match self {
            Device::Cartrige(c) => c.bbus_read_ok(addr),
            Device::Ram(r) => r.bbus_read_ok(addr),
        }
    }

    open spec fn bbus_wrote(&self, addr: u16, val: u8, post: Self) -> bool {
        match self {
            Device::Cartrige(c) => post matches Device::Cartrige(p) && c.bbus_wrote(addr, val, p),
            Device::Ram(r) => post matches Device::Ram(p) && r.bbus_wrote(addr, val, p),
        }
    }

    open spec fn bbus_write_ok(&self, addr: u16) -> bool {
        match self {
            Device::Cartrige(c) => c.bbus_write_ok(addr),
            Device::Ram(r) => r.bbus_write_ok(addr),
        }
    }

    open spec fn spec_bounds_abus(&self) -> (u16, u16) {
        match self {
            Device::Cartrige(c) => c.spec_bounds_abus(),
            Device::Ram(r) => r.spec_bounds_abus(),
        }
    }

    open spec fn spec_bounds_bbus(&self) -> (u16, u16) {
        match self {
            Device::Cartrige(c) => c.spec_bounds_bbus(),
            Device::Ram(r) => r.spec_bounds_bbus(),
        }
    }

    fn abus_read(&self, addr: u16) -> (r: u8) {
        match self {
            Device::Cartrige(c) => c.abus_read(addr),
            Device::Ram(r) => r.abus_read(addr),
        }
    }

    fn abus_write(&mut self, addr: u16, val: u8) {
        match self {
            Device::Cartrige(c) => c.abus_write(addr, val),
            Device::Ram(r) => r.abus_write(addr, val),
        }
    }

    fn bbus_read(&self, addr: u16) -> (r: u8) {
        match self {
            Device::Cartrige(c) => c.bbus_read(addr),
            Device::Ram(r) => r.bbus_read(addr),
        }
    }

    fn bbus_write(&mut self, addr: u16, val: u8) {
        match self {
            Device::Cartrige(c) => c.bbus_write(addr, val),
            Device::Ram(r) => r.bbus_write(addr, val),
        }
    }

    fn bounds_abus(&self) -> (r: (u16, u16)) {
        match self {
            Device::Cartrige(c) => c.bounds_abus(),
            Device::Ram(r) => r.bounds_abus(),
        }
    }

    fn bounds_bbus(&self) -> (r: (u16, u16)) {
        match self {
            Device::Cartrige(c) => c.bounds_bbus(),
            Device::Ram(r) => r.bounds_bbus(),
        }
    }
}

/// The device answers `addr` on the B bus (`on_bbus`) or on the A bus.
pub open spec fn claims(d: Device, addr: u16, on_bbus: bool) -> bool {
    let bounds = if on_bbus {
        d.spec_bounds_bbus()
    } else {
        d.spec_bounds_abus()
    };
    bounds.0 <= addr && addr <= bounds.1
}

/// The first device from index `i` on that answers `addr`; `devs.len()` if none does.
pub open spec fn owner_from(devs: Seq<Device>, addr: u16, on_bbus: bool, i: int) -> int
    decreases devs.len() - i,
{
    if i < 0 || i >= devs.len() {
        devs.len() as int
    } else if claims(devs[i], addr, on_bbus) {
        i
    } else {
        owner_from(devs, addr, on_bbus, i + 1)
    }
}

/// The owner found from `i` on is the first device at or after `i` that answers.
pub proof fn lemma_owner_from(devs: Seq<Device>, addr: u16, on_bbus: bool, i: int)
    requires
        0 <= i <= devs.len(),
    ensures
        i <= owner_from(devs, addr, on_bbus, i) <= devs.len(),
        owner_from(devs, addr, on_bbus, i) < devs.len() ==> claims(
            devs[owner_from(devs, addr, on_bbus, i)],
            addr,
            on_bbus,
        ),
        forall|j: int|
            i <= j < owner_from(devs, addr, on_bbus, i) ==> !claims(#[trigger] devs[j], addr, on_bbus),
    decreases devs.len() - i,
{
    if i < devs.len() && !claims(devs[i], addr, on_bbus) {
        lemma_owner_from(devs, addr, on_bbus, i + 1);
    }
}

/// The two buses of the console and the devices attached to them; an access goes
/// to the first device whose bounds hold the address.
pub struct DualBus {
    pub devices: Vec<Device>,
}

impl DualBus {
    /// Index of the device that answers `addr` on the A bus (`devices.len()` if none).
    pub open spec fn abus_owner(&self, addr: u16) -> int {
        owner_from(self.devices@, addr, false, 0)
    }

    /// Index of the device that answers `addr` on the B bus (`devices.len()` if none).
    pub open spec fn bbus_owner(&self, addr: u16) -> int {
        owner_from(self.devices@, addr, true, 0)
    }

    /// The byte a read at `addr` on the A bus gives: the owner's answer, or 0.
    pub open spec fn spec_abus_read(&self, addr: u16) -> u8 {
        let i = self.abus_owner(addr);
        if i < self.devices@.len() {
            self.devices@[i].spec_abus_read(addr)
        } else {
            0
        }
    }

    /// A read at `addr` on the A bus is defined.
    pub open spec fn abus_read_ok(&self, addr: u16) -> bool {
        let i = self.abus_owner(addr);
        i < self.devices@.len() ==> self.devices@[i].abus_read_ok(addr)
    }

    /// `post` is the bus after a write of `val` at `addr` on the A bus: only the owner
    /// changes, and as its own write says; with no owner nothing changes.
    pub open spec fn abus_wrote(&self, addr: u16, val: u8, post: DualBus) -> bool {
        let i = self.abus_owner(addr);
        if i < self.devices@.len() {
            &&& post.devices@.len() == self.devices@.len()
            &&& forall|j: int|
                0 <= j < self.devices@.len() && j != i ==> post.devices@[j] == self.devices@[j]
            &&& self.devices@[i].abus_wrote(addr, val, post.devices@[i])
        } else {
            post.devices@ == self.devices@
        }
    }

    /// A write at `addr` on the A bus is defined.
    pub open spec fn abus_write_ok(&self, addr: u16) -> bool {
        let i = self.abus_owner(addr);
        i < self.devices@.len() ==> self.devices@[i].abus_write_ok(addr)
    }

    /// The byte a read at `addr` on the B bus gives: the owner's answer, or 0.
    pub open spec fn spec_bbus_read(&self, addr: u16) -> u8 {
        let i = self.bbus_owner(addr);
        if i < self.devices@.len() {
            self.devices@[i].spec_bbus_read(addr)
        } else {
            0
        }
    }

    /// A read at `addr` on the B bus is defined.
    pub open spec fn bbus_read_ok(&self, addr: u16) -> bool {
        let i = self.bbus_owner(addr);
        i < self.devices@.len() ==> self.devices@[i].bbus_read_ok(addr)
    }

    /// `post` is the bus after a write of `val` at `addr` on the B bus.
    pub open spec fn bbus_wrote(&self, addr: u16, val: u8, post: DualBus) -> bool {
        let i = self.bbus_owner(addr);
        if i < self.devices@.len() {
            &&& post.devices@.len() == self.devices@.len()
            &&& forall|j: int|
                0 <= j < self.devices@.len() && j != i ==> post.devices@[j] == self.devices@[j]
            &&& self.devices@[i].bbus_wrote(addr, val, post.devices@[i])
        } else {
            post.devices@ == self.devices@
        }
    }

    /// A write at `addr` on the B bus is defined.
    pub open spec fn bbus_write_ok(&self, addr: u16) -> bool {
        let i = self.bbus_owner(addr);
        i < self.devices@.len() ==> self.devices@[i].bbus_write_ok(addr)
    }

    fn new(devices: Vec<Device>) -> (r: Self)
        ensures
            r.devices@ == devices@,
    {
        Self { devices }
    }

    /// Index of the first device whose bounds hold `addr`, or the number of devices.
    fn find_owner(&self, addr: u16, on_bbus: bool) -> (r: usize)
        ensures
            r == owner_from(self.devices@, addr, on_bbus, 0),
    {
        let mut i: usize = 0;
        while i < self.devices.len()
            invariant
                i <= self.devices@.len(),
                owner_from(self.devices@, addr, on_bbus, 0) == owner_from(self.devices@, addr, on_bbus, i as int),
            decreases self.devices@.len() - i,
        {
            let bounds = if on_bbus {
                self.devices[i].bounds_bbus()
            } else {
                self.devices[i].bounds_abus()
            };
            if addr >= bounds.0 && addr <= bounds.1 {
                return i;
            }
            i += 1;
        }
        i
    }

    pub fn abus_read(&self, addr: u16) -> (r: u8)
        requires
            self.abus_read_ok(addr),
        ensures
            r == self.spec_abus_read(addr),
    {
        let mut i: usize = 0;
        while i < self.devices.len()
            invariant
                i <= self.devices@.len(),
                self.abus_owner(addr) == owner_from(self.devices@, addr, false, i as int),
                self.abus_read_ok(addr),
            decreases self.devices@.len() - i,
        {
            let bounds = self.devices[i].bounds_abus();
            if addr >= bounds.0 && addr <= bounds.1 {
                return self.devices[i].abus_read(addr);
            }
            i += 1;
        }
        return 0;
    }

    pub fn abus_write(&mut self, addr: u16, val: u8)
        requires
            old(self).abus_write_ok(addr),
        ensures
            old(self).abus_wrote(addr, val, *final(self)),
    {
        let i = self.find_owner(addr, false);
        if i < self.devices.len() {
            self.devices[i].abus_write(addr, val);
        }
    }

    pub fn bbus_read(&self, addr: u16) -> (r: u8)
        requires
            self.bbus_read_ok(addr),
        ensures
            r == self.spec_bbus_read(addr),
    {
        let mut i: usize = 0;
        while i < self.devices.len()
            invariant
                i <= self.devices@.len(),
                self.bbus_owner(addr) == owner_from(self.devices@, addr, true, i as int),
                self.bbus_read_ok(addr),
            decreases self.devices@.len() - i,
        {
            let bounds = self.devices[i].bounds_bbus();
            if addr >= bounds.0 && addr <= bounds.1 {
                return self.devices[i].bbus_read(addr);
            }
            i += 1;
        }
        return 0;
    }

    pub fn bbus_write(&mut self, addr: u16, val: u8)
        requires
            old(self).bbus_write_ok(addr),
        ensures
            old(self).bbus_wrote(addr, val, *final(self)),
    {
        let i = self.find_owner(addr, true);
        if i < self.devices.len() {
            self.devices[i].bbus_write(addr, val);
        }
    }
}

impl Device {
    /// Whether an A bus read at `addr` is defined for this device.
    pub fn abus_readable(&self, addr: u16) -> (r: bool)
        ensures
            r == self.abus_read_ok(addr),
    {
        match self {
            Device::Cartrige(c) => c.abus_readable(addr),
            Device::Ram(_) => true,
        }
    }

    /// Whether an A bus write at `addr` is defined for this device.
    pub fn abus_writable(&self, addr: u16) -> (r: bool)
        ensures
            r == self.abus_write_ok(addr),
    {
        match self {
            Device::Cartrige(c) => c.abus_writable(addr),
            Device::Ram(_) => true,
        }
    }

    /// Whether a B bus read at `addr` is defined for this device.
    pub fn bbus_readable(&self, addr: u16) -> (r: bool)
        ensures
            r == self.bbus_read_ok(addr),
    {
        match self {
            Device::Cartrige(c) => c.bbus_readable(addr),
            Device::Ram(_) => true,
        }
    }
}

impl DualBus {
    /// Whether `abus_read(addr)` is defined.
    pub fn abus_readable(&self, addr: u16) -> (r: bool)
        ensures
            r == self.abus_read_ok(addr),
    {
        let i = self.find_owner(addr, false);
        i >= self.devices.len() || self.devices[i].abus_readable(addr)
    }

    /// Whether `abus_write(addr, ..)` is defined.
    pub fn abus_writable(&self, addr: u16) -> (r: bool)
        ensures
            r == self.abus_write_ok(addr),
    {
        let i = self.find_owner(addr, false);
        i >= self.devices.len() || self.devices[i].abus_writable(addr)
    }

    /// Whether `bbus_read(addr)` is defined.
    pub fn bbus_readable(&self, addr: u16) -> (r: bool)
        ensures
            r == self.bbus_read_ok(addr),
    {
        let i = self.find_owner(addr, true);
        i >= self.devices.len() || self.devices[i].bbus_readable(addr)
    }
}

/// A console: the CPU and the buses with their devices.
pub struct EmulState {
    pub cpu: Cpu6502,
    pub bus: DualBus,
}

impl EmulState {
    /// A console with the cartridge of `rom` as its only bus device and the CPU at
    /// power-on; `None` when the cartridge does not load.
    pub fn init(rom: &[u8]) -> (r: Option<Self>)
        requires
            header_readable(rom@),
        ensures
            r is Some <==> rom_loadable(rom@),
            r matches Some(s) ==> {
                &&& s.bus.devices@.len() == 1
                &&& s.bus.devices@[0] matches Device::Cartrige(c) && c.loaded_from(rom@)
                &&& s.cpu == Cpu6502::power_on()
                &&& s.cpu.wf()
            },
    {
        let mut bus_devices: Vec<Device> = Vec::new();

        bus_devices.push(Device::Cartrige(Cartrige::load_rom(rom)?));

        Some(EmulState { bus: DualBus::new(bus_devices), cpu: Cpu6502::new() })
    }
}

/// Devices whose answers to `addr` agree position by position have the same owner.
proof fn lemma_owner_same_claims(a: Seq<Device>, b: Seq<Device>, addr: u16, on_bbus: bool, i: int)
    requires
        0 <= i <= a.len(),
        a.len() == b.len(),
        forall|j: int| 0 <= j < a.len() ==> claims(a[j], addr, on_bbus) == claims(b[j], addr, on_bbus),
    ensures
        owner_from(a, addr, on_bbus, i) == owner_from(b, addr, on_bbus, i),
    decreases a.len() - i,
{
    if i < a.len() {
        lemma_owner_same_claims(a, b, addr, on_bbus, i + 1);
    }
}

/// A write leaves the bounds of every device, and so the owner of every address, as they were.
proof fn lemma_write_keeps_owners(pre: DualBus, addr: u16, val: u8, post: DualBus, other: u16)
    requires
        pre.abus_wrote(addr, val, post),
    ensures
        post.abus_owner(other) == pre.abus_owner(other),
        post.bbus_owner(other) == pre.bbus_owner(other),
{
    let i = pre.abus_owner(addr);
    lemma_owner_from(pre.devices@, addr, false, 0);
    if i < pre.devices@.len() {
        assert forall|j: int| 0 <= j < pre.devices@.len() implies claims(pre.devices@[j], other, false)
            == claims(post.devices@[j], other, false) && claims(pre.devices@[j], other, true)
            == claims(post.devices@[j], other, true) by {
            if j == i {
                match pre.devices@[j] {
                    Device::Cartrige(c) => {},
                    Device::Ram(r) => {},
                }
            }
        }
        lemma_owner_same_claims(pre.devices@, post.devices@, other, false, 0);
        lemma_owner_same_claims(pre.devices@, post.devices@, other, true, 0);
    }
}

/// A write to the stack page (0x0100..=0x01FF) leaves everything the PPU bus
/// sees as it was: only work RAM answers there on the A bus, and work RAM has
/// nothing on the B bus.
pub proof fn law_stack_write_keeps_ppu_bus(pre: DualBus, addr: u16, val: u8, post: DualBus, other: u16)
    requires
        0x0100 <= addr <= 0x01FF,
        pre.abus_wrote(addr, val, post),
    ensures
        post.spec_bbus_read(other) == pre.spec_bbus_read(other),
        post.bbus_read_ok(other) == pre.bbus_read_ok(other),
{
    lemma_write_keeps_owners(pre, addr, val, post, other);
    lemma_owner_from(pre.devices@, addr, false, 0);
    lemma_owner_from(pre.devices@, other, true, 0);
    let i = pre.abus_owner(addr);
    let o = pre.bbus_owner(other);
    if i < pre.devices@.len() {
        assert(pre.devices@[i] is Ram);
        assert(post.devices@[i] is Ram);
        if o != i && o < pre.devices@.len() {
            assert(post.devices@[o] == pre.devices@[o]);
        }
    } else {
        assert(post.devices@ == pre.devices@);
    }
}

/// Writing work RAM through the bus: a later read of the same address gives the byte back.
pub proof fn law_bus_ram_read_after_write(pre: DualBus, addr: u16, val: u8, post: DualBus)
    requires
        pre.abus_owner(addr) < pre.devices@.len(),
        pre.devices@[pre.abus_owner(addr)] is Ram,
        pre.abus_wrote(addr, val, post),
    ensures
        post.spec_abus_read(addr) == val,
{
    lemma_write_keeps_owners(pre, addr, val, post, addr);
    let i = pre.abus_owner(addr);
    match (pre.devices@[i], post.devices@[i]) {
        (Device::Ram(r), Device::Ram(p)) => {
            crate::ram::law_ram_read_after_write(r, addr, val, p);
        },
        _ => {},
    }
}

/// A write reaches only the device that answers its address: an address answered
/// by another device reads as before.
pub proof fn law_bus_write_isolated(pre: DualBus, addr: u16, val: u8, post: DualBus, other: u16)
    requires
        pre.abus_owner(other) != pre.abus_owner(addr),
        pre.abus_wrote(addr, val, post),
    ensures
        post.spec_abus_read(other) == pre.spec_abus_read(other),
        post.abus_read_ok(other) == pre.abus_read_ok(other),
{
    lemma_write_keeps_owners(pre, addr, val, post, other);
    lemma_owner_from(pre.devices@, other, false, 0);
    lemma_owner_from(pre.devices@, addr, false, 0);
}

/// An address no device answers reads 0, and a write there changes nothing.
pub proof fn law_bus_unclaimed_address(pre: DualBus, addr: u16, val: u8, post: DualBus)
    requires
        forall|j: int| 0 <= j < pre.devices@.len() ==> !claims(#[trigger] pre.devices@[j], addr, false),
        pre.abus_wrote(addr, val, post),
    ensures
        pre.spec_abus_read(addr) == 0,
        post.devices@ == pre.devices@,
{
    lemma_owner_from(pre.devices@, addr, false, 0);
    if pre.abus_owner(addr) < pre.devices@.len() {
        assert(claims(pre.devices@[pre.abus_owner(addr)], addr, false));
    }
}

/// On a console built from an image, the CPU sees the image's program ROM from
/// 0x8000 on, mirrored over the program ROM's length.
pub proof fn law_console_sees_prg_rom(s: EmulState, rom: Seq<u8>, addr: u16)
    requires
        s.bus.devices@.len() == 1,
        s.bus.devices@[0] matches Device::Cartrige(c) && c.loaded_from(rom),
        addr >= 0x8000,
        s.bus.abus_read_ok(addr),
    ensures
        s.bus.spec_abus_read(addr) == rom[prg_rom_start(rom) + (addr - 0x8000) % (16384 * rom[4])],
{
    let devs = s.bus.devices@;
    assert(claims(devs[0], addr, false));
    assert(s.bus.abus_owner(addr) == 0);
    match devs[0] {
        Device::Cartrige(c) => {
            let len = c.prg_rom@.len() as int;
            assert(len == 16384 * rom[4]);
            assert(0 <= (addr - 0x8000) % len < len) by {
                vstd::arithmetic::div_mod::lemma_mod_bound(addr - 0x8000, len);
            }
        },
        Device::Ram(_) => {},
    }
}

/// On a console built from an image, the PPU sees the image's character ROM
/// from 0x0000 to 0x1FFF.
pub proof fn law_console_sees_chr_rom(s: EmulState, rom: Seq<u8>, addr: u16)
    requires
        s.bus.devices@.len() == 1,
        s.bus.devices@[0] matches Device::Cartrige(c) && c.loaded_from(rom),
        addr <= 0x1FFF,
        s.bus.bbus_read_ok(addr),
    ensures
        s.bus.spec_bbus_read(addr) == rom[crate::cartrige::prg_rom_end(rom) + addr],
{
    let devs = s.bus.devices@;
    assert(claims(devs[0], addr, true));
    assert(s.bus.bbus_owner(addr) == 0);
}


/// An access goes to the first device, in bus order, whose bounds hold the
/// address; with none, reads give 0.
pub proof fn law_first_claiming_device_answers(bus: DualBus, addr: u16, j: int)
    requires
        0 <= j < bus.devices@.len(),
        bus.devices@[j].spec_bounds_abus().0 <= addr <= bus.devices@[j].spec_bounds_abus().1,
        forall|i: int|
            0 <= i < j ==> !(#[trigger] bus.devices@[i].spec_bounds_abus().0 <= addr
                <= bus.devices@[i].spec_bounds_abus().1),
    ensures
        bus.abus_owner(addr) == j,
        bus.spec_abus_read(addr) == bus.devices@[j].spec_abus_read(addr),
{
    lemma_owner_from(bus.devices@, addr, false, 0);
    let o = bus.abus_owner(addr);
    if o < j {
        assert(claims(bus.devices@[o], addr, false));
    }
    if o > j {
        assert(!claims(bus.devices@[j], addr, false));
    }
}

} // verus!
