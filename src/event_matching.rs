//! Events, and the predicates that decide whether a macro is triggered by one.

use vstd::prelude::*;
use crate::match_checker::NumberMatcher;
use crate::midi::MidiMessage;
use crate::state::State;

verus! {

/// Something that happened and may trigger a macro.
#[derive(Clone, Copy, Debug, PartialEq, Eq, Structural)]
pub enum Event {
    Midi(MidiMessage),
}

/// An absent matcher accepts every value.
pub open spec fn opt_matches(m: Option<NumberMatcher>, v: u8) -> bool {
    match m {
        Some(n) => n.spec_matches(v as int),
        None => true,
    }
}

fn opt_number_matches(m: &Option<NumberMatcher>, v: u8) -> (r: bool)
    ensures
        r == opt_matches(*m, v),
{
    match m {
        Some(n) => n.matches(v as i64),
        None => true,
    }
}

/// Matches one kind of MIDI message; every present field matcher must accept
/// the corresponding field of the message.
#[derive(Clone, Copy, Debug, PartialEq, Eq, Structural)]
pub enum MidiEventMatcher {
    NoteOff {
        channel_match: Option<NumberMatcher>,
        key_match: Option<NumberMatcher>,
        velocity_match: Option<NumberMatcher>,
    },
    NoteOn {
        channel_match: Option<NumberMatcher>,
        key_match: Option<NumberMatcher>,
        velocity_match: Option<NumberMatcher>,
    },
    ControlChange {
        channel_match: Option<NumberMatcher>,
        control_match: Option<NumberMatcher>,
        value_match: Option<NumberMatcher>,
    },
    ProgramChange { channel_match: Option<NumberMatcher>, program_match: Option<NumberMatcher> },
}

impl MidiEventMatcher {
    pub open spec fn spec_matches(&self, msg: MidiMessage) -> bool {
        match (*self, msg) {
            (
                MidiEventMatcher::NoteOff { channel_match, key_match, velocity_match },
                MidiMessage::NoteOff { channel, key, velocity },
            ) => opt_matches(channel_match, channel) && opt_matches(key_match, key)
                && opt_matches(velocity_match, velocity),
            (
                MidiEventMatcher::NoteOn { channel_match, key_match, velocity_match },
                MidiMessage::NoteOn { channel, key, velocity },
            ) => opt_matches(channel_match, channel) && opt_matches(key_match, key)
                && opt_matches(velocity_match, velocity),
            (
                MidiEventMatcher::ControlChange { channel_match, control_match, value_match },
                MidiMessage::ControlChange { channel, control, value },
            ) => opt_matches(channel_match, channel) && opt_matches(control_match, control)
                && opt_matches(value_match, value),
            (
                MidiEventMatcher::ProgramChange { channel_match, program_match },
                MidiMessage::ProgramChange { channel, program },
            ) => opt_matches(channel_match, channel) && opt_matches(program_match, program),
            _ => false,
        }
    }

    pub fn matches(&self, msg: &MidiMessage) -> (r: bool)
        ensures
            r == self.spec_matches(*msg),
    {
        match (self, msg) {
            (
                MidiEventMatcher::NoteOff { channel_match, key_match, velocity_match },
                MidiMessage::NoteOff { channel, key, velocity },
            ) => opt_number_matches(channel_match, *channel) && opt_number_matches(key_match, *key)
                && opt_number_matches(velocity_match, *velocity),
            (
                MidiEventMatcher::NoteOn { channel_match, key_match, velocity_match },
                MidiMessage::NoteOn { channel, key, velocity },
            ) => opt_number_matches(channel_match, *channel) && opt_number_matches(key_match, *key)
                && opt_number_matches(velocity_match, *velocity),
            (
                MidiEventMatcher::ControlChange { channel_match, control_match, value_match },
                MidiMessage::ControlChange { channel, control, value },
            ) => opt_number_matches(channel_match, *channel) && opt_number_matches(
                control_match,
                *control,
            ) && opt_number_matches(value_match, *value),
            (
                MidiEventMatcher::ProgramChange { channel_match, program_match },
                MidiMessage::ProgramChange { channel, program },
            ) => opt_number_matches(channel_match, *channel) && opt_number_matches(
                program_match,
                *program,
            ),
            _ => false,
        }
    }
}

/// Predicate over an event; one family per event source.
#[derive(Clone, Copy, Debug, PartialEq, Eq, Structural)]
pub enum EventMatcher {
    Midi(MidiEventMatcher),
}

impl EventMatcher {
    /// Field comparisons do not consult the state; it is taken so that a
    /// matcher may depend on it later.
    pub open spec fn spec_matches(&self, event: Event, state: State) -> bool {
        match (*self, event) {
            (EventMatcher::Midi(m), Event::Midi(msg)) => m.spec_matches(msg),
        }
    }

    pub fn matches(&self, event: &Event, state: &State) -> (r: bool)
        ensures
            r == self.spec_matches(*event, *state),
    {
        match (self, event) {
            (EventMatcher::Midi(m), Event::Midi(msg)) => m.matches(msg),
        }
    }
}

} // verus!
