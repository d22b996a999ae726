//! The linear-framebuffer terminal: the shared display surface, and the
//! cursor animation unit that blinks on it.
//!
//! The surface starts as an empty placeholder with zero dimensions and
//! becomes framebuffer-backed exactly once, when the boot sequencer learns
//! the framebuffer geometry; from then on its address, pitch, dimensions and
//! bit depth never change. Painting pixels is the kernel's job; this model
//! records the geometry, the characters written, and the cursor glyph state,
//! which is everything the boot logic decides on.

use vstd::prelude::*;

verus! {

pub struct LFBTerminal {
    /// Physical address of the framebuffer.
    pub address: u64,
    /// Bytes per scan line.
    pub pitch: u32,
    pub width: u32,
    pub height: u32,
    /// Bits per pixel.
    pub bpp: u8,
    /// Whether the cursor glyph is currently shown.
    pub cursor_visible: bool,
    /// Every character written to the surface, in order.
    pub written: Vec<char>,
}

impl LFBTerminal {
    /// The placeholder surface has no backing framebuffer and zero
    /// dimensions.
    pub open spec fn is_placeholder(self) -> bool {
        self.address == 0 && self.pitch == 0 && self.width == 0 && self.height == 0 && self.bpp
            == 0 && self.written@.len() == 0
    }

    /// The empty placeholder variant every registry starts with.
    pub fn empty() -> (r: LFBTerminal)
        ensures
            r.is_placeholder(),
            !r.cursor_visible,
    {
        LFBTerminal {
            address: 0,
            pitch: 0,
            width: 0,
            height: 0,
            bpp: 0,
            cursor_visible: false,
            written: Vec::new(),
        }
    }

    /// A surface backed by the framebuffer the bootloader described.
    pub fn new(address: u64, pitch: u32, width: u32, height: u32, bpp: u8) -> (r: LFBTerminal)
        ensures
            r.address == address,
            r.pitch == pitch,
            r.width == width,
            r.height == height,
            r.bpp == bpp,
            !r.cursor_visible,
            r.written@.len() == 0,
    {
        LFBTerminal {
            address,
            pitch,
            width,
            height,
            bpp,
            cursor_visible: false,
            written: Vec::new(),
        }
    }

    /// Writes one character at the cursor position. Only the written text
    /// changes; geometry and cursor glyph state stay as they are.
    pub fn write_char(&mut self, c: char)
        ensures
            final(self).written@ == old(self).written@.push(c),
            final(self).address == old(self).address,
            final(self).pitch == old(self).pitch,
            final(self).width == old(self).width,
            final(self).height == old(self).height,
            final(self).bpp == old(self).bpp,
            final(self).cursor_visible == old(self).cursor_visible,
    {
        self.written.push(c);
    }
}

/// The cursor animation unit: an independently scheduled, fire-and-forget
/// activity that blinks the cursor glyph on the shared surface. The registry
/// hands one to the scheduler when the display comes up and never tracks,
/// stops or joins it; the scheduler calls `step` between cooperative yields,
/// forever.
#[derive(Debug)]
pub struct CursorThread {
    /// Animation frames completed so far.
    pub frames: u64,
}

impl CursorThread {
    pub fn new() -> (r: CursorThread)
        ensures
            r.frames == 0,
    {
        CursorThread { frames: 0 }
    }

    /// One animation frame: toggle the cursor glyph's visibility, touching
    /// nothing else on the surface.
    pub fn step(&mut self, terminal: &mut LFBTerminal)
        ensures
            final(terminal).cursor_visible == !old(terminal).cursor_visible,
            final(terminal).written@ == old(terminal).written@,
            final(terminal).address == old(terminal).address,
            final(terminal).pitch == old(terminal).pitch,
            final(terminal).width == old(terminal).width,
            final(terminal).height == old(terminal).height,
            final(terminal).bpp == old(terminal).bpp,
            final(self).frames == if old(self).frames == u64::MAX {
                u64::MAX as int
            } else {
                old(self).frames + 1
            },
    {
        terminal.cursor_visible = !terminal.cursor_visible;
        if self.frames < u64::MAX {
            self.frames = self.frames + 1;
        }
    }
}

} // verus!
