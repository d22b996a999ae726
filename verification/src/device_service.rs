//! The device registry: the process-wide owner of every physical device
//! handle.
//!
//! Created once at startup and never destroyed. Each slot has a lifecycle
//! contract: the display starts as an empty placeholder and becomes
//! framebuffer-backed exactly once; the ACPI tables are absent until parsed
//! and reading them earlier is a fatal contract violation; the serial port
//! is optional and stays absent when no COM port answers; the keyboard is
//! usable only after controller, device and interrupt routing all came up.
//! Every mandatory initialization failure is fatal to the whole boot — the
//! fatal outcome is an explicit value naming the failed stage, handed to the
//! kernel's halt path.

use vstd::prelude::*;
use crate::lfb_terminal::{CursorThread, LFBTerminal};
use crate::ps2::PS2;
use crate::serial::{selected_port, spec_configured, spec_next_port, ComPort, SerialPort, SerialProbe};
use crate::speaker::Speaker;

verus! {

/// An unrecoverable boot failure: the stage that failed and, where the
/// hardware reported one, the underlying error code. The kernel halts on it;
/// there is no recovery path.
#[derive(Clone, Copy, PartialEq, Eq, Structural, Debug)]
pub enum FatalError {
    /// The bootloader provided no usable memory map.
    NoMemoryMap,
    /// The bootloader provided no framebuffer tag.
    NoFramebuffer,
    /// The bootloader provided neither ACPI root pointer.
    NoAcpi,
    /// The ACPI tables at the root pointer could not be parsed.
    AcpiParseFailed,
    /// The PS/2 controller failed to initialize.
    Ps2ControllerFailed(u8),
    /// The PS/2 keyboard failed to initialize.
    Ps2KeyboardFailed(u8),
    /// The ACPI tables were read before they were initialized.
    AcpiNotInitialized,
}

/// The diagnostic the kernel prints before halting on a fatal condition.
pub open spec fn spec_fatal_message(e: FatalError) -> Seq<char> {
    match e {
        FatalError::NoMemoryMap => "No memory map information available!"@,
        FatalError::NoFramebuffer => "No framebuffer information available!"@,
        FatalError::NoAcpi => "ACPI not available!"@,
        FatalError::AcpiParseFailed => "Failed to parse ACPI tables"@,
        FatalError::Ps2ControllerFailed(_) => "Failed to initialize PS2 controller"@,
        FatalError::Ps2KeyboardFailed(_) => "Failed to initialize PS2 keyboard"@,
        FatalError::AcpiNotInitialized => "ACPI: Accessing tables before initialization!"@,
    }
}

impl FatalError {
    /// The diagnostic text naming the failed stage.
    pub fn message(&self) -> (r: &'static str)
        ensures
            r@ == spec_fatal_message(*self),
    {
        match self {
            FatalError::NoMemoryMap => "No memory map information available!",
            FatalError::NoFramebuffer => "No framebuffer information available!",
            FatalError::NoAcpi => "ACPI not available!",
            FatalError::AcpiParseFailed => "Failed to parse ACPI tables",
            FatalError::Ps2ControllerFailed(_) => "Failed to initialize PS2 controller",
            FatalError::Ps2KeyboardFailed(_) => "Failed to initialize PS2 keyboard",
            FatalError::AcpiNotInitialized => "ACPI: Accessing tables before initialization!",
        }
    }
}

/// What the registry keeps of the parsed ACPI tables: where they were
/// parsed from and the revision the root table reported. The parser itself
/// is a collaborator; safe device enumeration later relies on this record
/// existing only after a successful parse.
#[derive(Clone, Copy, PartialEq, Eq, Structural, Debug)]
pub struct AcpiTablesInfo {
    pub rsdp_address: usize,
    pub revision: u8,
}

pub struct DeviceService {
    pub speaker: Speaker,
    pub ps2: PS2,
    pub terminal: LFBTerminal,
    pub serial: Option<SerialPort>,
    pub acpi_tables: Option<AcpiTablesInfo>,
    /// How many cursor animation units have been handed to the scheduler.
    pub cursor_threads: u64,
}

impl DeviceService {
    /// The state before any boot stage ran: placeholder display, no serial
    /// port, no ACPI tables, keyboard untouched, no animation running.
    pub open spec fn is_fresh(self) -> bool {
        &&& self.terminal.is_placeholder()
        &&& !self.terminal.cursor_visible
        &&& self.serial is None
        &&& self.acpi_tables is None
        &&& !self.ps2.controller_initialized
        &&& !self.ps2.keyboard_initialized
        &&& !self.ps2.keyboard_plugged
        &&& self.cursor_threads == 0
    }

    pub fn new() -> (r: DeviceService)
        ensures
            r.is_fresh(),
            r.speaker.tone is None,
    {
        DeviceService {
            speaker: Speaker::new(),
            ps2: PS2::new(),
            terminal: LFBTerminal::empty(),
            serial: None,
            acpi_tables: None,
            cursor_threads: 0,
        }
    }

    /// First keyboard step: the controller. The kernel runs the hardware
    /// initialization and hands the outcome over; a failure is fatal and
    /// leaves the controller uninitialized, so the keyboard step may not
    /// follow it.
    pub fn init_ps2_controller(&mut self, outcome: Result<(), u8>) -> (r: Result<(), FatalError>)
        ensures
            outcome matches Err(code) ==> r == Result::<(), FatalError>::Err(
                FatalError::Ps2ControllerFailed(code),
            ) && final(self).ps2 == old(self).ps2,
            outcome is Ok ==> r is Ok && final(self).ps2.controller_initialized
                && final(self).ps2.keyboard_initialized == old(self).ps2.keyboard_initialized
                && final(self).ps2.keyboard_plugged == old(self).ps2.keyboard_plugged,
            final(self).speaker == old(self).speaker,
            final(self).terminal == old(self).terminal,
            final(self).serial == old(self).serial,
            final(self).acpi_tables == old(self).acpi_tables,
            final(self).cursor_threads == old(self).cursor_threads,
    {
        match outcome {
            Err(code) => Err(FatalError::Ps2ControllerFailed(code)),
            Ok(()) => {
                self.ps2.controller_initialized = true;
                Ok(())
            },
        }
    }

    /// Second keyboard step: the device itself, then its interrupt routing.
    /// The keyboard may not be touched before its controller came up — the
    /// precondition is that dependency. A failure is fatal and leaves the
    /// keyboard unusable.
    pub fn init_ps2_keyboard(&mut self, outcome: Result<(), u8>) -> (r: Result<(), FatalError>)
        requires
            old(self).ps2.controller_initialized,
        ensures
            outcome matches Err(code) ==> r == Result::<(), FatalError>::Err(
                FatalError::Ps2KeyboardFailed(code),
            ) && final(self).ps2.controller_initialized && !final(self).ps2.keyboard_initialized
                && !final(self).ps2.keyboard_plugged,
            outcome is Ok ==> r is Ok && final(self).ps2.ready(),
            final(self).speaker == old(self).speaker,
            final(self).terminal == old(self).terminal,
            final(self).serial == old(self).serial,
            final(self).acpi_tables == old(self).acpi_tables,
            final(self).cursor_threads == old(self).cursor_threads,
    {
        match outcome {
            Err(code) => {
                self.ps2.keyboard_initialized = false;
                self.ps2.keyboard_plugged = false;
                Err(FatalError::Ps2KeyboardFailed(code))
            },
            Ok(()) => {
                self.ps2.keyboard_initialized = true;
                self.ps2.keyboard_plugged = true;
                Ok(())
            },
        }
    }

    /// Brings up the whole keyboard chain on outcomes gathered up front:
    /// controller, then device, then interrupt routing; the first failure
    /// wins and is fatal, with the sub-step identified. A kernel that must
    /// not touch the keyboard after a failed controller runs the two steps
    /// above itself, the second only after the first returned `Ok`.
    pub fn init_keyboard(
        &mut self,
        controller: Result<(), u8>,
        keyboard: Result<(), u8>,
    ) -> (r: Result<(), FatalError>)
        ensures
            controller is Err ==> r == Result::<(), FatalError>::Err(
                FatalError::Ps2ControllerFailed(controller->Err_0),
            ) && final(self).ps2 == old(self).ps2,
            controller is Ok && keyboard is Err ==> r == Result::<(), FatalError>::Err(
                FatalError::Ps2KeyboardFailed(keyboard->Err_0),
            ) && final(self).ps2.controller_initialized && !final(self).ps2.keyboard_initialized
                && !final(self).ps2.keyboard_plugged,
            controller is Ok && keyboard is Ok ==> r is Ok && final(self).ps2.ready(),
            final(self).speaker == old(self).speaker,
            final(self).terminal == old(self).terminal,
            final(self).serial == old(self).serial,
            final(self).acpi_tables == old(self).acpi_tables,
            final(self).cursor_threads == old(self).cursor_threads,
    {
        if let Err(e) = self.init_ps2_controller(controller) {
            return Err(e);
        }
        self.init_ps2_keyboard(keyboard)
    }

    /// Replaces the placeholder display with the framebuffer-backed surface
    /// and hands back the cursor animation unit bound to it — the one
    /// operation with a side effect beyond its own state: the caller gives
    /// the unit to the scheduler, which runs it concurrently from here on.
    pub fn init_terminal(
        &mut self,
        address: u64,
        pitch: u32,
        width: u32,
        height: u32,
        bpp: u8,
    ) -> (r: CursorThread)
        requires
            old(self).cursor_threads < u64::MAX,
        ensures
            final(self).terminal.address == address,
            final(self).terminal.pitch == pitch,
            final(self).terminal.width == width,
            final(self).terminal.height == height,
            final(self).terminal.bpp == bpp,
            final(self).terminal.written@.len() == 0,
            final(self).terminal.cursor_visible == false,
            final(self).cursor_threads == old(self).cursor_threads + 1,
            r.frames == 0,
            final(self).speaker == old(self).speaker,
            final(self).ps2 == old(self).ps2,
            final(self).serial == old(self).serial,
            final(self).acpi_tables == old(self).acpi_tables,
    {
        self.terminal = LFBTerminal::new(address, pitch, width, height, bpp);
        self.cursor_threads = self.cursor_threads + 1;
        CursorThread::new()
    }

    /// One step of the serial probe. The kernel asks the hardware whether
    /// `port` answers the presence check and hands the answer in: a present
    /// port is taken, configured with a 128-entry buffer at 115200 baud, and
    /// no further port is requested — the candidates after the first
    /// responder stay unexamined. An absent port passes the probe on to the
    /// next candidate, in the fixed order COM1, COM2, COM3, COM4; after COM4
    /// nothing more is requested and the slot keeps its state.
    pub fn serial_probe_step(&mut self, port: ComPort, present: bool) -> (next: Option<ComPort>)
        ensures
            present ==> next is None && (final(self).serial matches Some(s)
                && spec_configured(s, port)),
            !present ==> next == spec_next_port(port) && final(self).serial == old(self).serial,
            final(self).speaker == old(self).speaker,
            final(self).ps2 == old(self).ps2,
            final(self).terminal == old(self).terminal,
            final(self).acpi_tables == old(self).acpi_tables,
            final(self).cursor_threads == old(self).cursor_threads,
    {
        if present {
            self.serial = Some(SerialPort::new(port));
            None
        } else {
            match port {
                ComPort::Com1 => Some(ComPort::Com2),
                ComPort::Com2 => Some(ComPort::Com3),
                ComPort::Com3 => Some(ComPort::Com4),
                ComPort::Com4 => None,
            }
        }
    }

    /// Probes COM1 through COM4 in that fixed order (the kernel supplies the
    /// hardware presence answers) and takes the first port that answered,
    /// configured with a 128-entry buffer at 115200 baud. No port answering
    /// is not an error: the slot stays absent.
    pub fn init_serial_port(&mut self, probe: SerialProbe)
        ensures
            selected_port(probe) is None ==> final(self).serial == old(self).serial,
            selected_port(probe) matches Some(port) ==> final(self).serial matches Some(s)
                && spec_configured(s, port),
            final(self).speaker == old(self).speaker,
            final(self).ps2 == old(self).ps2,
            final(self).terminal == old(self).terminal,
            final(self).acpi_tables == old(self).acpi_tables,
            final(self).cursor_threads == old(self).cursor_threads,
    {
        let mut serial: Option<SerialPort> = None;
        if probe.com1 {
            serial = Some(SerialPort::new(crate::serial::ComPort::Com1));
        } else if probe.com2 {
            serial = Some(SerialPort::new(crate::serial::ComPort::Com2));
        } else if probe.com3 {
            serial = Some(SerialPort::new(crate::serial::ComPort::Com3));
        } else if probe.com4 {
            serial = Some(SerialPort::new(crate::serial::ComPort::Com4));
        }
        if serial.is_some() {
            self.serial = serial;
        }
    }

    /// Records the outcome of parsing the ACPI tables at the given root
    /// pointer. A failed parse is fatal: table corruption is unrecoverable
    /// because safe device enumeration later depends on the parsed data.
    pub fn init_acpi_tables(&mut self, rsdp_addr: usize, parsed_revision: Option<u8>) -> (r: Result<
        (),
        FatalError,
    >)
        ensures
            parsed_revision matches Some(revision) ==> r is Ok && final(self).acpi_tables == Some(
                AcpiTablesInfo { rsdp_address: rsdp_addr, revision },
            ),
            parsed_revision is None ==> r == Result::<(), FatalError>::Err(
                FatalError::AcpiParseFailed,
            ) && final(self).acpi_tables == old(self).acpi_tables,
            final(self).speaker == old(self).speaker,
            final(self).ps2 == old(self).ps2,
            final(self).terminal == old(self).terminal,
            final(self).serial == old(self).serial,
            final(self).cursor_threads == old(self).cursor_threads,
    {
        match parsed_revision {
            Some(revision) => {
                self.acpi_tables = Some(AcpiTablesInfo { rsdp_address: rsdp_addr, revision });
                Ok(())
            },
            None => Err(FatalError::AcpiParseFailed),
        }
    }

    /// The speaker is shared: callers serialize on the kernel's lock around
    /// the registry for the duration of one operation.
    pub fn get_speaker(&self) -> (r: &Speaker)
        ensures
            r == &self.speaker,
    {
        &self.speaker
    }

    pub fn get_ps2(&self) -> (r: &PS2)
        ensures
            r == &self.ps2,
    {
        &self.ps2
    }

    pub fn get_terminal(&self) -> (r: &LFBTerminal)
        ensures
            r == &self.terminal,
    {
        &self.terminal
    }

    pub fn get_serial_port(&self) -> (r: &Option<SerialPort>)
        ensures
            r == &self.serial,
    {
        &self.serial
    }

    /// Reading the ACPI tables before `init_acpi_tables` succeeded is a
    /// programmer bug, not a runtime condition: it is reported as the fatal
    /// contract violation, deterministically, every time.
    pub fn get_acpi_tables(&self) -> (r: Result<&AcpiTablesInfo, FatalError>)
        ensures
            self.acpi_tables matches Some(t) ==> r matches Ok(rt) && *rt == t,
            self.acpi_tables is None ==> r == Result::<&AcpiTablesInfo, FatalError>::Err(
                FatalError::AcpiNotInitialized,
            ),
    {
        match &self.acpi_tables {
            Some(t) => Ok(t),
            None => Err(FatalError::AcpiNotInitialized),
        }
    }
}

} // verus!
