use vstd::prelude::*;
use crate::bus::{Device, EmulState};
use crate::cartrige::{header_readable, is_valid_rom, rom_loadable, spec_is_valid_rom};
use crate::cpu::Cpu6502;

verus! {

/// Number of tool windows the front end offers.
pub const NUM_TOOLS: usize = 3;

/// Which tool windows of the front end are open.
pub struct UiState {
    pub tool_status: [bool; NUM_TOOLS],
}

impl Default for UiState {
    fn default() -> (r: Self)
        ensures
            forall|i: int| 0 <= i < NUM_TOOLS ==> !r.tool_status[i],
    {
        let r = UiState { tool_status: [false; 3] };
        r
    }
}

/// What the emulator is running.
pub enum BackendState {
    NotEmulating,
    NES(EmulState),
}

impl Default for BackendState {
    fn default() -> (r: Self)
        ensures
            r is NotEmulating,
    {
        BackendState::NotEmulating
    }
}

/// The whole state of the program.
pub struct EmulatorState {
    pub ui_state: UiState,
    pub backend_state: BackendState,
}

impl Default for EmulatorState {
    fn default() -> (r: Self)
        ensures
            r.backend_state is NotEmulating,
            forall|i: int| 0 <= i < NUM_TOOLS ==> !r.ui_state.tool_status[i],
    {
        EmulatorState { ui_state: UiState::default(), backend_state: BackendState::default() }
    }
}


/// Why an image was not started.
pub enum RomLoadError {
    /// not an iNES image of a board in the assigned range
    NotValid,
    /// an iNES image, but its board is unknown or the file is shorter than its header says
    InitFailed,
}

impl EmulatorState {
    /// Starts emulating the iNES image `rom`: it is checked with `is_valid_rom`,
    /// then the console is built with `EmulState::init`. On an error nothing changes.
    pub fn open_rom(&mut self, rom: &[u8]) -> (r: Result<(), RomLoadError>)
        requires
            header_readable(rom@),
        ensures
            !spec_is_valid_rom(rom@) ==> r matches Err(RomLoadError::NotValid),
            spec_is_valid_rom(rom@) && !rom_loadable(rom@) ==> r matches Err(
                RomLoadError::InitFailed,
            ),
            r is Ok <==> rom_loadable(rom@),
            r is Err ==> *final(self) == *old(self),
            r is Ok ==> final(self).ui_state == old(self).ui_state,
            r is Ok ==> (final(self).backend_state matches BackendState::NES(s) && {
                &&& s.bus.devices@.len() == 1
                &&& s.bus.devices@[0] matches Device::Cartrige(c) && c.loaded_from(rom@)
                &&& s.cpu == Cpu6502::power_on()
                &&& s.cpu.wf()
            }),
    {
        if is_valid_rom(rom) {
            if let Some(nes) = EmulState::init(rom) {
                self.backend_state = BackendState::NES(nes);
                Ok(())
            } else {
                Err(RomLoadError::InitFailed)
            }
        } else {
            Err(RomLoadError::NotValid)
        }
    }
}

} // verus!
