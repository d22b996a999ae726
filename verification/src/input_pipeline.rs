//! The input pipeline: drains the scancode channel, decodes bytes into key
//! events, and writes printable characters to the display surface.
//!
//! The scancode-to-key automaton is pc-keyboard's; its state tables are a
//! collaborator, not re-implemented here. The pipeline's own obligations are
//! verified: every poll consumes exactly the oldest queued byte, writes at
//! most one character, never touches the surface geometry, and never fails —
//! a malformed byte sequence is absorbed silently and the decoder
//! resynchronizes on the next valid prefix.

use vstd::prelude::*;
use pc_keyboard::{HandleControl, KeyEvent, PS2Keyboard, ScancodeSet1};
use pc_keyboard::layouts::{AnyLayout, De105Key};
use pc_keyboard::DecodedKey;
use crate::lfb_terminal::LFBTerminal;
use crate::scancode::ScancodeChannel;

verus! {

#[verifier::external_type_specification]
#[verifier::external_body]
pub struct ExKeyEvent(KeyEvent);

/// Holds pc_keyboard's stateful scancode automaton. The automaton's state is
/// opaque to verification (its generic parameters carry pc-keyboard's own
/// trait bounds, which cannot be declared here), so the whole holder is
/// trusted and every access goes through the wrappers below.
#[verifier::external_body]
pub struct KeyDecoder {
    inner: PS2Keyboard<AnyLayout, ScancodeSet1>,
}

/// Relies on pc_keyboard::PS2Keyboard::new: a fresh decoder for scancode set
/// 1 with the German 105-key layout, control keys left alone.
#[verifier::external_body]
fn new_key_decoder() -> KeyDecoder {
    KeyDecoder {
        inner: PS2Keyboard::new(
            ScancodeSet1::new(),
            AnyLayout::De105Key(De105Key),
            HandleControl::Ignore,
        ),
    }
}

/// Relies on pc_keyboard::PS2Keyboard::add_byte: advances the automaton by
/// one raw byte and yields a key event when one is complete. An error (a
/// malformed byte) and an incomplete sequence both yield nothing; the
/// automaton resynchronizes by itself.
#[verifier::external_body]
fn decoder_add_byte(decoder: &mut KeyDecoder, code: u8) -> Option<KeyEvent> {
    match decoder.inner.add_byte(code) {
        Ok(Some(event)) => Some(event),
        Ok(None) => None,
        Err(_) => None,
    }
}

/// Relies on pc_keyboard::PS2Keyboard::process_keyevent: applies the
/// modifier state to a key event and yields the decoded key. Only a key
/// that decodes to a Unicode character is of interest; a raw key code or no
/// decoded key yields nothing.
#[verifier::external_body]
fn decoder_process_keyevent(decoder: &mut KeyDecoder, event: KeyEvent) -> Option<char> {
    match decoder.inner.process_keyevent(event) {
        Some(DecodedKey::Unicode(c)) => Some(c),
        Some(DecodedKey::RawKey(_)) => None,
        None => None,
    }
}

/// Owns the stateful key decoder. The decoder must be fed bytes in arrival
/// order and is not shared across threads; the pipeline is its sole owner.
pub struct InputPipeline {
    pub decoder: KeyDecoder,
}

impl InputPipeline {
    pub fn new() -> InputPipeline {
        InputPipeline { decoder: new_key_decoder() }
    }

    /// One step of the consumer loop: takes the oldest queued scancode, if
    /// any, and writes the decoded character, if the byte completed a
    /// printable key event. Never panics, whatever the byte.
    pub fn poll_once(&mut self, channel: &mut ScancodeChannel, terminal: &mut LFBTerminal) -> (wrote:
        Option<char>)
        ensures
            old(channel)@.len() == 0 ==> final(channel)@ == old(channel)@ && wrote is None,
            old(channel)@.len() > 0 ==> final(channel)@ == old(channel)@.drop_first(),
            wrote is Some ==> final(terminal).written@ == old(terminal).written@.push(
                wrote->Some_0,
            ),
            wrote is None ==> final(terminal).written@ == old(terminal).written@,
            final(terminal).address == old(terminal).address,
            final(terminal).pitch == old(terminal).pitch,
            final(terminal).width == old(terminal).width,
            final(terminal).height == old(terminal).height,
            final(terminal).bpp == old(terminal).bpp,
            final(terminal).cursor_visible == old(terminal).cursor_visible,
    {
        let next = channel.pop();
        match next {
            None => None,
            Some(code) => {
                match decoder_add_byte(&mut self.decoder, code) {
                    None => None,
                    Some(event) => {
                        match decoder_process_keyevent(&mut self.decoder, event) {
                            None => None,
                            Some(c) => {
                                terminal.write_char(c);
                                Some(c)
                            },
                        }
                    },
                }
            },
        }
    }

    /// Runs the consumer until the channel is drained: the poll loop's body,
    /// bounded by what is queued. The kernel's foreground loop calls this
    /// forever, interleaved with new interrupts. Every queued byte is
    /// consumed; at most one character per byte is written, and everything
    /// written earlier stays.
    pub fn drain(&mut self, channel: &mut ScancodeChannel, terminal: &mut LFBTerminal) -> (wrote:
        usize)
        requires
            old(terminal).written@.len() + old(channel)@.len() <= usize::MAX,
        ensures
            final(channel)@.len() == 0,
            old(terminal).written@.is_prefix_of(final(terminal).written@),
            final(terminal).written@.len() == old(terminal).written@.len() + wrote,
            wrote <= old(channel)@.len(),
            final(terminal).address == old(terminal).address,
            final(terminal).pitch == old(terminal).pitch,
            final(terminal).width == old(terminal).width,
            final(terminal).height == old(terminal).height,
            final(terminal).bpp == old(terminal).bpp,
            final(terminal).cursor_visible == old(terminal).cursor_visible,
    {
        let mut wrote: usize = 0;
        loop
            invariant
                channel@.len() + wrote <= old(channel)@.len(),
                old(terminal).written@.is_prefix_of(terminal.written@),
                terminal.written@.len() == old(terminal).written@.len() + wrote,
                terminal.address == old(terminal).address,
                terminal.pitch == old(terminal).pitch,
                terminal.width == old(terminal).width,
                terminal.height == old(terminal).height,
                terminal.bpp == old(terminal).bpp,
                terminal.cursor_visible == old(terminal).cursor_visible,
                terminal.written@.len() + channel@.len() <= usize::MAX,
            decreases channel@.len(),
        {
            if channel.len() == 0 {
                return wrote;
            }
            let written = self.poll_once(channel, terminal);
            if written.is_some() {
                wrote = wrote + 1;
            }
        }
    }
}

} // verus!
