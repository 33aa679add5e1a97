//! The runtime context that scopes and preconditions are evaluated against:
//! the focused window and the last known state of the device.

use vstd::prelude::*;
use crate::macros::Scope;
use crate::match_checker::StringMatcher;
use crate::midi::MidiMessage;
use crate::preconditions::{Condition, Precondition};

verus! {

/// Number of channels tracked.
pub const CHANNELS: usize = 16;

/// Number of controllers, and of keys, tracked on each channel.
pub const NUMBERS: usize = 128;

/// Slots of the device-state tables: one per channel and number.
pub const SLOTS: usize = 2048;

/// Whether a channel and a controller or key number are tracked.
pub open spec fn in_table(channel: int, number: int) -> bool {
    0 <= channel < CHANNELS && 0 <= number < NUMBERS
}

pub open spec fn slot_of(channel: int, number: int) -> int {
    channel * NUMBERS + number
}

/// A scope-free macro matches anywhere; otherwise each present matcher must
/// accept the focused window's identity.
pub open spec fn scope_matches(scope: Option<Scope>, class: Seq<char>, name: Seq<char>) -> bool {
    match scope {
        None => true,
        Some(s) => opt_text_matches(s.window_class, class) && opt_text_matches(s.window_name, name),
    }
}

pub open spec fn opt_text_matches(m: Option<StringMatcher>, text: Seq<char>) -> bool {
    match m {
        None => true,
        Some(sm) => sm.spec_matches(text),
    }
}

/// Snapshot of the focused window and of the device.
pub struct State {
    window_class: String,
    window_name: String,
    control_values: Vec<u8>,
    held_notes: Vec<bool>,
}

impl State {
    #[verifier::type_invariant]
    spec fn tables_sized(&self) -> bool {
        self.control_values@.len() == SLOTS && self.held_notes@.len() == SLOTS
    }

    /// Class of the focused window.
    pub closed spec fn focus_class(&self) -> Seq<char> {
        self.window_class@
    }

    /// Name (title) of the focused window.
    pub closed spec fn focus_name(&self) -> Seq<char> {
        self.window_name@
    }

    /// Last value seen for a controller; 0 before any and outside the table.
    pub closed spec fn spec_control_value(&self, channel: int, control: int) -> int {
        if in_table(channel, control) {
            self.control_values@[slot_of(channel, control)] as int
        } else {
            0
        }
    }

    /// Whether a key is held; false outside the table.
    pub closed spec fn spec_note_held(&self, channel: int, key: int) -> bool {
        if in_table(channel, key) {
            self.held_notes@[slot_of(channel, key)]
        } else {
            false
        }
    }

    /// A fresh state: no controller moved, no key held.
    pub fn new(window_class: String, window_name: String) -> (r: State)
        ensures
            r.focus_class() == window_class@,
            r.focus_name() == window_name@,
            forall|c: int, n: int| r.spec_control_value(c, n) == 0,
            forall|c: int, n: int| !r.spec_note_held(c, n),
    {
        let mut control_values: Vec<u8> = Vec::new();
        let mut held_notes: Vec<bool> = Vec::new();
        let mut i: usize = 0;
        while i < SLOTS
            invariant
                i <= SLOTS,
                control_values@.len() == i,
                held_notes@.len() == i,
                forall|k: int| 0 <= k < i ==> control_values@[k] == 0,
                forall|k: int| 0 <= k < i ==> !held_notes@[k],
            decreases SLOTS - i,
        {
            control_values.push(0);
            held_notes.push(false);
            i = i + 1;
        }
        State { window_class, window_name, control_values, held_notes }
    }

    /// Replaces the focused window's identity.
    pub fn set_focus(&mut self, window_class: String, window_name: String)
        ensures
            final(self).focus_class() == window_class@,
            final(self).focus_name() == window_name@,
            forall|c: int, n: int|
                final(self).spec_control_value(c, n) == old(self).spec_control_value(c, n),
            forall|c: int, n: int| final(self).spec_note_held(c, n) == old(self).spec_note_held(c, n),
    {
        proof {
            use_type_invariant(&*self);
        }
        self.window_class = window_class;
        self.window_name = window_name;
    }

    /// Records what a message says of the device: a controller's new value,
    /// or a key pressed (note on with a velocity above 0) or released.
    pub fn record_message(&mut self, msg: &MidiMessage)
        ensures
            final(self).focus_class() == old(self).focus_class(),
            final(self).focus_name() == old(self).focus_name(),
            forall|c: int, n: int|
                #[trigger] final(self).spec_control_value(c, n) == match *msg {
                    MidiMessage::ControlChange { channel, control, value } => if c == channel
                        && n == control && in_table(c, n) {
                        value as int
                    } else {
                        old(self).spec_control_value(c, n)
                    },
                    _ => old(self).spec_control_value(c, n),
                },
            forall|c: int, n: int|
                #[trigger] final(self).spec_note_held(c, n) == match *msg {
                    MidiMessage::NoteOn { channel, key, velocity } => if c == channel && n == key
                        && in_table(c, n) {
                        velocity > 0
                    } else {
                        old(self).spec_note_held(c, n)
                    },
                    MidiMessage::NoteOff { channel, key, .. } => if c == channel && n == key
                        && in_table(c, n) {
                        false
                    } else {
                        old(self).spec_note_held(c, n)
                    },
                    _ => old(self).spec_note_held(c, n),
                },
    {
        proof {
            use_type_invariant(&*self);
        }
        match *msg {
            MidiMessage::ControlChange { channel, control, value } => {
                if (channel as usize) < CHANNELS && (control as usize) < NUMBERS {
                    let k = channel as usize * NUMBERS + control as usize;
                    self.control_values[k] = value;
                    assert forall|c: int, n: int| in_table(c, n) && (c != channel || n != control)
                        implies slot_of(c, n) != k by {
                        assert(slot_of(c, n) == c * 128 + n);
                    }
                }
            },
            MidiMessage::NoteOn { channel, key, velocity } => {
                if (channel as usize) < CHANNELS && (key as usize) < NUMBERS {
                    let k = channel as usize * NUMBERS + key as usize;
                    self.held_notes[k] = velocity > 0;
                    assert forall|c: int, n: int| in_table(c, n) && (c != channel || n != key)
                        implies slot_of(c, n) != k by {
                        assert(slot_of(c, n) == c * 128 + n);
                    }
                }
            },
            MidiMessage::NoteOff { channel, key, .. } => {
                if (channel as usize) < CHANNELS && (key as usize) < NUMBERS {
                    let k = channel as usize * NUMBERS + key as usize;
                    self.held_notes[k] = false;
                    assert forall|c: int, n: int| in_table(c, n) && (c != channel || n != key)
                        implies slot_of(c, n) != k by {
                        assert(slot_of(c, n) == c * 128 + n);
                    }
                }
            },
            MidiMessage::ProgramChange { .. } => {},
        }
    }

    pub fn window_class(&self) -> (r: &str)
        ensures
            r@ == self.focus_class(),
    {
        self.window_class.as_str()
    }

    pub fn window_name(&self) -> (r: &str)
        ensures
            r@ == self.focus_name(),
    {
        self.window_name.as_str()
    }

    pub fn control_value(&self, channel: u8, control: u8) -> (r: u8)
        ensures
            r as int == self.spec_control_value(channel as int, control as int),
    {
        proof {
            use_type_invariant(self);
        }
        if (channel as usize) < CHANNELS && (control as usize) < NUMBERS {
            self.control_values[channel as usize * NUMBERS + control as usize]
        } else {
            0
        }
    }

    pub fn note_held(&self, channel: u8, key: u8) -> (r: bool)
        ensures
            r == self.spec_note_held(channel as int, key as int),
    {
        proof {
            use_type_invariant(self);
        }
        if (channel as usize) < CHANNELS && (key as usize) < NUMBERS {
            self.held_notes[channel as usize * NUMBERS + key as usize]
        } else {
            false
        }
    }

    pub open spec fn spec_matches_scope(&self, scope: Option<Scope>) -> bool {
        scope_matches(scope, self.focus_class(), self.focus_name())
    }

    /// Whether the focused window lies in the scope; an absent scope is global.
    pub fn matches_scope(&self, scope: &Option<Scope>) -> (r: bool)
        ensures
            r == self.spec_matches_scope(*scope),
    {
        match scope {
            None => true,
            Some(s) => {
                let class_ok = match &s.window_class {
                    None => true,
                    Some(m) => m.matches(self.window_class.as_str()),
                };
                let name_ok = match &s.window_name {
                    None => true,
                    Some(m) => m.matches(self.window_name.as_str()),
                };
                class_ok && name_ok
            },
        }
    }

    pub open spec fn spec_holds(&self, p: Precondition) -> bool {
        let holds = match p.condition {
            Condition::ControlValue { channel, control, value_match } => value_match.spec_matches(
                self.spec_control_value(channel as int, control as int),
            ),
            Condition::NoteHeld { channel, key } => self.spec_note_held(channel as int, key as int),
        };
        holds != p.invert
    }

    /// Whether a precondition holds in this state.
    pub fn matches(&self, p: &Precondition) -> (r: bool)
        ensures
            r == self.spec_holds(*p),
    {
        let holds = match p.condition {
            Condition::ControlValue { channel, control, value_match } => value_match.matches(
                self.control_value(channel, control) as i64,
            ),
            Condition::NoteHeld { channel, key } => self.note_held(channel, key),
        };
        holds != p.invert
    }
}

} // verus!
