use bootcore::device_service::DeviceService;
use bootcore::serial::{BaudRate, ComPort, SerialProbe};

#[test]
fn probe_steps_stop_at_the_first_responder() {
    // The kernel probes one port at a time; after a present answer the step
    // requests no further port, so the later candidates stay unexamined.
    let mut registry = DeviceService::new();
    assert_eq!(registry.serial_probe_step(ComPort::Com1, false), Some(ComPort::Com2));
    assert_eq!(registry.serial_probe_step(ComPort::Com2, true), None);
    let port = registry.get_serial_port().as_ref().unwrap();
    assert_eq!(port.port, ComPort::Com2);
    assert_eq!(port.buffer_size, 128);
}

#[test]
fn probe_steps_end_after_com4() {
    let mut registry = DeviceService::new();
    assert_eq!(registry.serial_probe_step(ComPort::Com3, false), Some(ComPort::Com4));
    assert_eq!(registry.serial_probe_step(ComPort::Com4, false), None);
    assert!(registry.get_serial_port().is_none());
}

#[test]
fn com_port_base_addresses() {
    assert_eq!(ComPort::Com1.base_address(), 0x3f8);
    assert_eq!(ComPort::Com2.base_address(), 0x2f8);
    assert_eq!(ComPort::Com3.base_address(), 0x3e8);
    assert_eq!(ComPort::Com4.base_address(), 0x2e8);
}

fn probe(com1: bool, com2: bool, com3: bool, com4: bool) -> SerialProbe {
    SerialProbe { com1, com2, com3, com4 }
}

#[test]
fn single_present_com1_is_taken() {
    let mut registry = DeviceService::new();
    registry.init_serial_port(probe(true, false, false, false));
    let port = registry.get_serial_port().as_ref().unwrap();
    assert_eq!(port.port, ComPort::Com1);
}

#[test]
fn single_present_com2_is_taken() {
    let mut registry = DeviceService::new();
    registry.init_serial_port(probe(false, true, false, false));
    assert_eq!(registry.get_serial_port().as_ref().unwrap().port, ComPort::Com2);
}

#[test]
fn single_present_com3_is_taken() {
    let mut registry = DeviceService::new();
    registry.init_serial_port(probe(false, false, true, false));
    assert_eq!(registry.get_serial_port().as_ref().unwrap().port, ComPort::Com3);
}

#[test]
fn single_present_com4_is_taken() {
    let mut registry = DeviceService::new();
    registry.init_serial_port(probe(false, false, false, true));
    assert_eq!(registry.get_serial_port().as_ref().unwrap().port, ComPort::Com4);
}

#[test]
fn priority_order_prefers_lower_port() {
    let mut registry = DeviceService::new();
    registry.init_serial_port(probe(false, true, true, true));
    assert_eq!(registry.get_serial_port().as_ref().unwrap().port, ComPort::Com2);

    let mut registry = DeviceService::new();
    registry.init_serial_port(probe(true, true, true, true));
    assert_eq!(registry.get_serial_port().as_ref().unwrap().port, ComPort::Com1);
}

#[test]
fn taken_port_is_configured() {
    let mut registry = DeviceService::new();
    registry.init_serial_port(probe(false, false, true, false));
    let port = registry.get_serial_port().as_ref().unwrap();
    assert_eq!(port.buffer_size, 128);
    assert_eq!(port.speed, BaudRate::Baud115200);
}

#[test]
fn no_port_present_leaves_slot_absent() {
    let mut registry = DeviceService::new();
    registry.init_serial_port(probe(false, false, false, false));
    assert!(registry.get_serial_port().is_none());
}
