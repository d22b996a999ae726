//! The PS/2 controller and keyboard handle.
//!
//! Programming the real controller is done over I/O ports by the surrounding
//! kernel, which reports each sub-step's outcome; this type records how far
//! initialization got, so that later accesses can rely on it.

use vstd::prelude::*;

verus! {

pub struct PS2 {
    /// The controller passed its initialization.
    pub controller_initialized: bool,
    /// The keyboard device passed its initialization.
    pub keyboard_initialized: bool,
    /// The keyboard's interrupt line is routed to the scancode producer.
    pub keyboard_plugged: bool,
}

impl PS2 {
    /// A handle for a controller in its power-on state.
    pub fn new() -> (r: PS2)
        ensures
            !r.controller_initialized,
            !r.keyboard_initialized,
            !r.keyboard_plugged,
    {
        PS2 { controller_initialized: false, keyboard_initialized: false, keyboard_plugged: false }
    }

    /// The whole bring-up chain has run: controller, keyboard, interrupt
    /// routing.
    pub open spec fn ready(self) -> bool {
        self.controller_initialized && self.keyboard_initialized && self.keyboard_plugged
    }
}

} // verus!
