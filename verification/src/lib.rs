//! Hardware bring-up and device-ownership core of a teaching kernel.
//!
//! The crate models the boot path of a small kernel: a fail-fast boot
//! sequencer, a device registry that owns every physical device handle, a
//! lock-free FIFO scancode channel feeding an input pipeline, a cursor
//! animation unit, and a level-filtered multi-sink log facility. Hardware
//! probing, interrupt plumbing and raw framebuffer writes are performed by
//! the surrounding kernel; this crate holds and verifies every decision made
//! on their outcomes.

pub mod ansi;
pub mod device_service;
pub mod input_pipeline;
pub mod lfb_terminal;
pub mod log_service;
pub mod ps2;
pub mod scancode;
pub mod serial;
pub mod speaker;
pub mod startup;
