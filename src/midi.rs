//! Device messages as they arrive from a MIDI port.

use vstd::prelude::*;

verus! {

/// One decoded MIDI channel message. Channels count from 0.
#[derive(Clone, Copy, Debug, PartialEq, Eq, Structural)]
pub enum MidiMessage {
    NoteOff { channel: u8, key: u8, velocity: u8 },
    NoteOn { channel: u8, key: u8, velocity: u8 },
    ControlChange { channel: u8, control: u8, value: u8 },
    ProgramChange { channel: u8, program: u8 },
}

} // verus!
