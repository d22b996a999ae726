use bootcore::device_service::{DeviceService, FatalError};
use bootcore::lfb_terminal::LFBTerminal;

#[test]
fn acpi_access_before_init_is_fatal() {
    let mut registry = DeviceService::new();
    assert_eq!(registry.get_acpi_tables().unwrap_err(), FatalError::AcpiNotInitialized);
    // Deterministically, every time.
    assert_eq!(registry.get_acpi_tables().unwrap_err(), FatalError::AcpiNotInitialized);
    // A failed parse is fatal and still leaves the slot absent.
    assert_eq!(registry.init_acpi_tables(0x9fa00, None).unwrap_err(), FatalError::AcpiParseFailed);
    assert_eq!(registry.get_acpi_tables().unwrap_err(), FatalError::AcpiNotInitialized);
}

#[test]
fn acpi_access_after_init_succeeds() {
    let mut registry = DeviceService::new();
    registry.init_acpi_tables(0x9fa00, Some(2)).unwrap();
    let tables = registry.get_acpi_tables().unwrap();
    assert_eq!(tables.rsdp_address, 0x9fa00);
    assert_eq!(tables.revision, 2);
}

#[test]
fn fatal_messages_name_the_stage() {
    assert_eq!(FatalError::AcpiNotInitialized.message(), "ACPI: Accessing tables before initialization!");
    assert_eq!(FatalError::AcpiParseFailed.message(), "Failed to parse ACPI tables");
    assert_eq!(FatalError::Ps2ControllerFailed(3).message(), "Failed to initialize PS2 controller");
    assert_eq!(FatalError::NoAcpi.message(), "ACPI not available!");
}

#[test]
fn keyboard_steps_gate_the_device_behind_the_controller() {
    let mut registry = DeviceService::new();
    assert_eq!(
        registry.init_ps2_controller(Err(2)).unwrap_err(),
        FatalError::Ps2ControllerFailed(2)
    );
    assert!(!registry.get_ps2().controller_initialized);
    registry.init_ps2_controller(Ok(())).unwrap();
    assert!(registry.get_ps2().controller_initialized);
    assert_eq!(
        registry.init_ps2_keyboard(Err(5)).unwrap_err(),
        FatalError::Ps2KeyboardFailed(5)
    );
    assert!(!registry.get_ps2().keyboard_initialized);
    registry.init_ps2_keyboard(Ok(())).unwrap();
    assert!(registry.get_ps2().keyboard_plugged);
}

#[test]
fn keyboard_chain_stops_at_first_failure() {
    let mut registry = DeviceService::new();
    assert_eq!(
        registry.init_keyboard(Err(7), Ok(())).unwrap_err(),
        FatalError::Ps2ControllerFailed(7)
    );
    assert!(!registry.get_ps2().controller_initialized);

    let mut registry = DeviceService::new();
    assert_eq!(
        registry.init_keyboard(Ok(()), Err(9)).unwrap_err(),
        FatalError::Ps2KeyboardFailed(9)
    );
    assert!(registry.get_ps2().controller_initialized);
    assert!(!registry.get_ps2().keyboard_initialized);

    let mut registry = DeviceService::new();
    registry.init_keyboard(Ok(()), Ok(())).unwrap();
    assert!(registry.get_ps2().keyboard_plugged);
}

#[test]
fn display_starts_as_placeholder_and_becomes_backed_once() {
    let mut registry = DeviceService::new();
    assert_eq!(registry.get_terminal().width, 0);
    assert_eq!(registry.get_terminal().height, 0);
    let mut cursor = registry.init_terminal(0xfd00_0000, 3200, 800, 600, 32);
    assert_eq!(registry.get_terminal().address, 0xfd00_0000);
    assert_eq!(registry.get_terminal().pitch, 3200);
    assert_eq!(registry.get_terminal().width, 800);
    assert_eq!(registry.get_terminal().height, 600);
    assert_eq!(registry.get_terminal().bpp, 32);
    assert_eq!(registry.cursor_threads, 1);

    // The animation unit is observably running: the cursor glyph toggles
    // over time, without the caller of the initialization looping itself.
    let mut surface = LFBTerminal::new(0xfd00_0000, 3200, 800, 600, 32);
    assert!(!surface.cursor_visible);
    cursor.step(&mut surface);
    assert!(surface.cursor_visible);
    cursor.step(&mut surface);
    assert!(!surface.cursor_visible);
    assert_eq!(cursor.frames, 2);
}

#[test]
fn speaker_is_always_constructible() {
    let mut registry = DeviceService::new();
    assert!(registry.get_speaker().tone.is_none());
    registry.speaker.play(440);
    assert_eq!(registry.get_speaker().tone, Some(440));
    registry.speaker.off();
    assert!(registry.get_speaker().tone.is_none());
}
