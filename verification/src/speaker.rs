//! The PC speaker handle.
//!
//! The speaker is the one device that is constructible without touching
//! hardware; actually driving the timer channel that produces a tone is the
//! surrounding kernel's job. The registry shares this handle behind a
//! mutual-exclusion lock, since several callers may request tones at once.

use vstd::prelude::*;

verus! {

pub struct Speaker {
    /// The frequency in Hz of the tone currently requested, if any.
    pub tone: Option<u32>,
}

impl Speaker {
    /// A silent speaker.
    pub fn new() -> (r: Speaker)
        ensures
            r.tone is None,
    {
        Speaker { tone: None }
    }

    /// Records a tone request.
    pub fn play(&mut self, frequency: u32)
        ensures
            final(self).tone == Some(frequency),
    {
        self.tone = Some(frequency);
    }

    /// Silences the speaker.
    pub fn off(&mut self)
        ensures
            final(self).tone is None,
    {
        self.tone = None;
    }
}

} // verus!
