use bootcore::device_service::{DeviceService, FatalError};
use bootcore::startup::{
    banner_date, or_unknown, resolve_rsdp, select_heap_area, startup, startup_begin, AreaType,
    BootInfo, FramebufferInfo, HardwareOutcomes, MemoryArea,
};

fn area(start: u64, end: u64, typ: AreaType) -> MemoryArea {
    MemoryArea { start, end, typ }
}

fn full_boot_info() -> BootInfo {
    BootInfo {
        memory_areas: Some(vec![
            area(0x0, 0x9f000, AreaType::Available),
            area(0x9f000, 0x100000, AreaType::Reserved),
            area(0x100000, 0x7fe0000, AreaType::Available),
        ]),
        framebuffer: Some(FramebufferInfo {
            address: 0xfd00_0000,
            pitch: 3200,
            width: 800,
            height: 600,
            bpp: 32,
        }),
        rsdp_v2: Some(0x9fa20),
        rsdp_v1: Some(0x9fa00),
        bootloader_name: Some(String::from("GRUB 2.06")),
    }
}

fn all_good_hardware() -> HardwareOutcomes {
    HardwareOutcomes { ps2_controller: Ok(()), ps2_keyboard: Ok(()), acpi_revision: Some(2) }
}

#[test]
fn heap_area_is_the_largest_available() {
    let areas = vec![
        area(0x0, 0x9f000, AreaType::Available),
        area(0x100000, 0x7fe0000, AreaType::Available),
        area(0x7fe0000, 0x8000000, AreaType::Reserved),
    ];
    let chosen = select_heap_area(&areas).unwrap();
    assert_eq!(chosen.start, 0x100000);
    assert_eq!(chosen.end, 0x7fe0000);
    assert!(select_heap_area(&Vec::new()).is_none());
}

#[test]
fn heap_scan_ignores_reserved_areas() {
    // A reserved area is never chosen, however large or early it is listed:
    // the heap goes over the largest available one.
    let areas = vec![
        area(0x0, 0x5000, AreaType::Reserved),
        area(0x5000, 0x6000, AreaType::Available),
    ];
    let chosen = select_heap_area(&areas).unwrap();
    assert_eq!(chosen.start, 0x5000);
    assert_eq!(chosen.typ, AreaType::Available);
}

#[test]
fn map_without_available_area_is_fatal() {
    let areas = vec![
        area(0x0, 0x5000, AreaType::Reserved),
        area(0x5000, 0x9000, AreaType::Reserved),
    ];
    assert!(select_heap_area(&areas).is_none());
    let mut registry = DeviceService::new();
    let mut info = full_boot_info();
    info.memory_areas = Some(areas);
    assert_eq!(
        startup(&mut registry, &info, &all_good_hardware()).unwrap_err(),
        FatalError::NoMemoryMap
    );
    assert_eq!(registry.cursor_threads, 0);
}

#[test]
fn stepped_boot_gates_each_hardware_action() {
    // The kernel that drives the steps itself runs each hardware action only
    // after the previous stage returned Ok.
    let mut registry = DeviceService::new();
    let info = full_boot_info();
    let plan = startup_begin(&mut registry, &info).unwrap();
    assert_eq!(plan.rsdp_address, 0x9fa20);
    assert_eq!(registry.cursor_threads, 1);
    assert!(registry.get_acpi_tables().is_err());
    registry.init_acpi_tables(plan.rsdp_address, Some(2)).unwrap();
    registry.init_ps2_controller(Ok(())).unwrap();
    registry.init_ps2_keyboard(Ok(())).unwrap();
    assert!(registry.get_ps2().keyboard_plugged);

    // A boot with no framebuffer halts inside the first step: nothing later
    // may even be attempted.
    let mut registry = DeviceService::new();
    let mut info = full_boot_info();
    info.framebuffer = None;
    assert_eq!(startup_begin(&mut registry, &info).unwrap_err(), FatalError::NoFramebuffer);
    assert_eq!(registry.cursor_threads, 0);
}

#[test]
fn rsdp_v2_is_preferred_over_v1() {
    let info = full_boot_info();
    assert_eq!(resolve_rsdp(&info).unwrap(), 0x9fa20);
    let mut info = full_boot_info();
    info.rsdp_v2 = None;
    assert_eq!(resolve_rsdp(&info).unwrap(), 0x9fa00);
    info.rsdp_v1 = None;
    assert_eq!(resolve_rsdp(&info).unwrap_err(), FatalError::NoAcpi);
}

#[test]
fn successful_boot_produces_the_plan() {
    let mut registry = DeviceService::new();
    let plan = startup(&mut registry, &full_boot_info(), &all_good_hardware()).unwrap();
    assert_eq!(plan.heap_start, 0x100000);
    assert_eq!(plan.heap_size, 0x7fe0000 - 0x100000);
    assert_eq!(plan.framebuffer.width, 800);
    assert_eq!(plan.rsdp_address, 0x9fa20);
    assert_eq!(plan.cursor_thread.frames, 0);
    assert_eq!(registry.cursor_threads, 1);
    assert!(registry.get_ps2().keyboard_plugged);
    assert_eq!(registry.get_acpi_tables().unwrap().revision, 2);
}

#[test]
fn missing_memory_map_halts_at_once() {
    let mut registry = DeviceService::new();
    let mut info = full_boot_info();
    info.memory_areas = None;
    assert_eq!(startup(&mut registry, &info, &all_good_hardware()).unwrap_err(), FatalError::NoMemoryMap);
    assert_eq!(registry.cursor_threads, 0);

    let mut info = full_boot_info();
    info.memory_areas = Some(Vec::new());
    assert_eq!(startup(&mut registry, &info, &all_good_hardware()).unwrap_err(), FatalError::NoMemoryMap);
}

#[test]
fn missing_framebuffer_halts_before_acpi_and_keyboard() {
    let mut registry = DeviceService::new();
    let mut info = full_boot_info();
    info.framebuffer = None;
    let fatal = startup(&mut registry, &info, &all_good_hardware()).unwrap_err();
    assert_eq!(fatal, FatalError::NoFramebuffer);
    // ACPI and keyboard were never reached, and no cursor animation unit was
    // ever constructed.
    assert!(registry.get_acpi_tables().is_err());
    assert!(!registry.get_ps2().controller_initialized);
    assert_eq!(registry.cursor_threads, 0);
    assert_eq!(registry.get_terminal().width, 0);
}

#[test]
fn acpi_failures_halt_before_keyboard() {
    let mut registry = DeviceService::new();
    let mut info = full_boot_info();
    info.rsdp_v2 = None;
    info.rsdp_v1 = None;
    assert_eq!(startup(&mut registry, &info, &all_good_hardware()).unwrap_err(), FatalError::NoAcpi);
    assert!(!registry.get_ps2().controller_initialized);
    // The display stage had already run by then.
    assert_eq!(registry.cursor_threads, 1);

    let mut registry = DeviceService::new();
    let mut hardware = all_good_hardware();
    hardware.acpi_revision = None;
    assert_eq!(
        startup(&mut registry, &full_boot_info(), &hardware).unwrap_err(),
        FatalError::AcpiParseFailed
    );
    assert!(registry.get_acpi_tables().is_err());
    assert!(!registry.get_ps2().controller_initialized);
}

#[test]
fn keyboard_failures_name_the_sub_step() {
    let mut registry = DeviceService::new();
    let mut hardware = all_good_hardware();
    hardware.ps2_controller = Err(4);
    assert_eq!(
        startup(&mut registry, &full_boot_info(), &hardware).unwrap_err(),
        FatalError::Ps2ControllerFailed(4)
    );

    let mut registry = DeviceService::new();
    let mut hardware = all_good_hardware();
    hardware.ps2_keyboard = Err(6);
    assert_eq!(
        startup(&mut registry, &full_boot_info(), &hardware).unwrap_err(),
        FatalError::Ps2KeyboardFailed(6)
    );
    assert!(registry.get_ps2().controller_initialized);
    assert!(!registry.get_ps2().keyboard_initialized);
}

#[test]
fn banner_date_renders_or_falls_back() {
    assert_eq!(banner_date("Tue, 1 Jul 2003 10:52:37 +0200"), "2003-07-01 10:52:37");
    assert_eq!(banner_date("not a date"), "Unknown");
    assert_eq!(banner_date(""), "Unknown");
}

#[test]
fn absent_banner_fields_read_unknown() {
    assert_eq!(or_unknown(Some("main")), "main");
    assert_eq!(or_unknown(None), "Unknown");
}
