//! Gates over the tracked device state, independent of the triggering event.

use vstd::prelude::*;
use crate::match_checker::NumberMatcher;

verus! {

/// What a precondition tests.
#[derive(Clone, Copy, Debug, PartialEq, Eq, Structural)]
pub enum Condition {
    /// The last value seen for a controller on a channel is accepted by the matcher.
    ControlValue { channel: u8, control: u8, value_match: NumberMatcher },
    /// A note is currently held down on a channel.
    NoteHeld { channel: u8, key: u8 },
}

/// A condition, possibly negated.
#[derive(Clone, Copy, Debug, PartialEq, Eq, Structural)]
pub struct Precondition {
    pub invert: bool,
    pub condition: Condition,
}

impl Precondition {
    pub fn new(condition: Condition, invert: bool) -> (r: Precondition)
        ensures
            r.condition == condition,
            r.invert == invert,
    {
        Precondition { invert, condition }
    }
}

} // verus!
