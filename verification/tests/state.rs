use nes_emu::state::{BackendState, EmulatorState, RomLoadError, UiState};

#[test]
fn default_state_is_idle() {
    let s = EmulatorState::default();
    assert!(matches!(s.backend_state, BackendState::NotEmulating));
    assert_eq!(s.ui_state.tool_status, [false; 3]);
    assert_eq!(UiState::default().tool_status, [false, false, false]);
    assert!(matches!(BackendState::default(), BackendState::NotEmulating));
}

fn image(mapper_low: u8) -> Vec<u8> {
    let mut rom = vec![0x4E, 0x45, 0x53, 0x1A, 2, 1, mapper_low << 4, 0];
    rom.resize(16, 0);
    rom.extend(std::iter::repeat(0xEA).take(32768 + 8192));
    rom
}

#[test]
fn open_rom_starts_emulation() {
    let mut s = EmulatorState::default();
    s.ui_state.tool_status[1] = true;
    assert!(s.open_rom(&image(0)).is_ok());
    assert!(matches!(s.backend_state, BackendState::NES(_)));
    assert_eq!(s.ui_state.tool_status, [false, true, false]);
}

#[test]
fn open_rom_errors_leave_state() {
    let mut s = EmulatorState::default();
    assert!(matches!(s.open_rom(&[0u8]), Err(RomLoadError::NotValid)));
    assert!(matches!(s.backend_state, BackendState::NotEmulating));
    // mapper 1 is a valid number but not a known board
    assert!(matches!(s.open_rom(&image(1)), Err(RomLoadError::InitFailed)));
    assert!(matches!(s.backend_state, BackendState::NotEmulating));
    let mut short = image(0);
    short.truncate(1000);
    assert!(matches!(s.open_rom(&short), Err(RomLoadError::InitFailed)));
}
