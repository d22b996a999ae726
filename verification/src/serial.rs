//! The serial port: COM port identities, probing and the configured port.
//!
//! Serial hardware is optional diagnostic equipment. The kernel probes the
//! four candidate COM ports with a hardware presence check and hands the
//! answers over; the decision which port to take is made, and verified,
//! here: the first port that answered, in the fixed order COM1, COM2, COM3,
//! COM4, and none at all if none answered.

use vstd::prelude::*;

verus! {

#[derive(Clone, Copy, PartialEq, Eq, Structural, Debug)]
pub enum ComPort {
    Com1,
    Com2,
    Com3,
    Com4,
}

/// The x86 base I/O address of a COM port.
pub open spec fn spec_port_base(port: ComPort) -> int {
    match port {
        ComPort::Com1 => 0x3f8,
        ComPort::Com2 => 0x2f8,
        ComPort::Com3 => 0x3e8,
        ComPort::Com4 => 0x2e8,
    }
}

/// The candidate that is probed after this one answered absent; nothing
/// follows COM4.
pub open spec fn spec_next_port(port: ComPort) -> Option<ComPort> {
    match port {
        ComPort::Com1 => Some(ComPort::Com2),
        ComPort::Com2 => Some(ComPort::Com3),
        ComPort::Com3 => Some(ComPort::Com4),
        ComPort::Com4 => None,
    }
}

impl ComPort {
    /// The base I/O address the kernel probes and configures the port at.
    pub fn base_address(&self) -> (r: u16)
        ensures
            r as int == spec_port_base(*self),
    {
        match self {
            ComPort::Com1 => 0x3f8,
            ComPort::Com2 => 0x2f8,
            ComPort::Com3 => 0x3e8,
            ComPort::Com4 => 0x2e8,
        }
    }
}

#[derive(Clone, Copy, PartialEq, Eq, Structural, Debug)]
pub enum BaudRate {
    Baud115200,
}

/// The answers of the hardware presence check, one per candidate port.
#[derive(Clone, Copy, PartialEq, Eq, Structural, Debug)]
pub struct SerialProbe {
    pub com1: bool,
    pub com2: bool,
    pub com3: bool,
    pub com4: bool,
}

/// Whether the probe reported the given port as present.
pub open spec fn probe_reports(probe: SerialProbe, port: ComPort) -> bool {
    match port {
        ComPort::Com1 => probe.com1,
        ComPort::Com2 => probe.com2,
        ComPort::Com3 => probe.com3,
        ComPort::Com4 => probe.com4,
    }
}

/// The port the probe selects: the first present one in priority order.
pub open spec fn selected_port(probe: SerialProbe) -> Option<ComPort> {
    if probe.com1 {
        Some(ComPort::Com1)
    } else if probe.com2 {
        Some(ComPort::Com2)
    } else if probe.com3 {
        Some(ComPort::Com3)
    } else if probe.com4 {
        Some(ComPort::Com4)
    } else {
        None
    }
}

/// If exactly one port answers the presence check, the selection takes that
/// port, whichever of the four it is.
pub proof fn lemma_unique_probe_selected(probe: SerialProbe, port: ComPort)
    requires
        probe_reports(probe, port),
        forall|other: ComPort| probe_reports(probe, other) ==> other == port,
    ensures
        selected_port(probe) == Some(port),
{
    match port {
        ComPort::Com1 => {
        },
        ComPort::Com2 => {
            assert(!probe_reports(probe, ComPort::Com1));
        },
        ComPort::Com3 => {
            assert(!probe_reports(probe, ComPort::Com1));
            assert(!probe_reports(probe, ComPort::Com2));
        },
        ComPort::Com4 => {
            assert(!probe_reports(probe, ComPort::Com1));
            assert(!probe_reports(probe, ComPort::Com2));
            assert(!probe_reports(probe, ComPort::Com3));
        },
    }
}

/// A configured serial port.
pub struct SerialPort {
    pub port: ComPort,
    /// Size of the receive buffer, in entries.
    pub buffer_size: usize,
    pub speed: BaudRate,
}

/// How a freshly taken port is configured: a 128-entry buffer at 115200 baud.
pub open spec fn spec_configured(s: SerialPort, port: ComPort) -> bool {
    s.port == port && s.buffer_size == 128 && s.speed == BaudRate::Baud115200
}

impl SerialPort {
    /// Configures the port that answered the probe.
    pub fn new(port: ComPort) -> (r: SerialPort)
        ensures
            spec_configured(r, port),
    {
        SerialPort { port, buffer_size: 128, speed: BaudRate::Baud115200 }
    }
}

} // verus!
