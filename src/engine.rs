//! Rule selection: the first macro, in declaration order, that fires on an
//! event wins; later ones are not consulted.

use vstd::prelude::*;
use crate::actions::Action;
use crate::event_matching::{Event, EventMatcher, MidiEventMatcher};
use crate::macros::{Macro, Scope, any_event_matches};
use crate::match_checker::StringMatcher;
use crate::midi::MidiMessage;
use crate::state::State;

verus! {

/// The index of the first macro of `ms` that fires, if any.
pub open spec fn winner(ms: Seq<Macro>, e: Event, s: State) -> Option<int>
    decreases ms.len(),
{
    if ms.len() == 0 {
        None
    } else if ms[0].fires(e, s) {
        Some(0)
    } else {
        match winner(ms.drop_first(), e, s) {
            Some(i) => Some(i + 1),
            None => None,
        }
    }
}

/// `i` is the first index of `ms` whose macro fires.
pub open spec fn is_first_firing(ms: Seq<Macro>, e: Event, s: State, i: int) -> bool {
    &&& 0 <= i < ms.len()
    &&& ms[i].fires(e, s)
    &&& forall|j: int| 0 <= j < i ==> !(#[trigger] ms[j]).fires(e, s)
}

/// `winner` is the first firing macro, and `None` only when none fires.
pub proof fn lemma_winner_first(ms: Seq<Macro>, e: Event, s: State)
    ensures
        winner(ms, e, s) matches Some(i) ==> is_first_firing(ms, e, s, i),
        winner(ms, e, s) is None ==> forall|j: int| 0 <= j < ms.len() ==> !(#[trigger] ms[j]).fires(e, s),
    decreases ms.len(),
{
    if ms.len() > 0 && !ms[0].fires(e, s) {
        let rest = ms.drop_first();
        lemma_winner_first(rest, e, s);
        assert forall|j: int| 0 < j < ms.len() implies ms[j] == rest[j - 1] by {}
        if winner(rest, e, s) is None {
            assert forall|j: int| 0 <= j < ms.len() implies !(#[trigger] ms[j]).fires(e, s) by {
                if j > 0 {
                    assert(ms[j] == rest[j - 1]);
                }
            }
        } else {
            let i = winner(rest, e, s)->0;
            assert forall|j: int| 0 <= j < i + 1 implies !(#[trigger] ms[j]).fires(e, s) by {
                if j > 0 {
                    assert(ms[j] == rest[j - 1]);
                }
            }
        }
    }
}

/// Order: when the macro at `i` fires, the winner is that macro or one
/// declared before it, never one declared after it.
pub proof fn lemma_first_match_wins(ms: Seq<Macro>, e: Event, s: State, i: int)
    requires
        0 <= i < ms.len(),
        ms[i].fires(e, s),
    ensures
        winner(ms, e, s) matches Some(w) && w <= i,
        forall|j: int| i < j < ms.len() ==> winner(ms, e, s) != Some(j),
{
    lemma_winner_first(ms, e, s);
    if winner(ms, e, s) is None {
        assert(!ms[i].fires(e, s));
    }
}

/// Idempotence: two evaluations of one event against one state snapshot
/// that each pick a first firing macro pick the same one.
pub proof fn lemma_evaluation_deterministic(ms: Seq<Macro>, e: Event, s: State, i: int, j: int)
    requires
        is_first_firing(ms, e, s, i),
        is_first_firing(ms, e, s, j),
    ensures
        i == j,
{
    if i < j {
        assert(!ms[i].fires(e, s));
    } else if j < i {
        assert(!ms[j].fires(e, s));
    }
}

/// A matcher whose field matchers are all absent accepts every message of
/// its kind, whatever its fields hold.
pub proof fn lemma_dont_care_matches_every_message(msg: MidiMessage, s: State)
    ensures
        msg is NoteOff ==> (EventMatcher::Midi(
            MidiEventMatcher::NoteOff { channel_match: None, key_match: None, velocity_match: None },
        )).spec_matches(Event::Midi(msg), s),
        msg is NoteOn ==> (EventMatcher::Midi(
            MidiEventMatcher::NoteOn { channel_match: None, key_match: None, velocity_match: None },
        )).spec_matches(Event::Midi(msg), s),
        msg is ControlChange ==> (EventMatcher::Midi(
            MidiEventMatcher::ControlChange {
                channel_match: None,
                control_match: None,
                value_match: None,
            },
        )).spec_matches(Event::Midi(msg), s),
        msg is ProgramChange ==> (EventMatcher::Midi(
            MidiEventMatcher::ProgramChange { channel_match: None, program_match: None },
        )).spec_matches(Event::Midi(msg), s),
{
}

/// A macro that holds a control-change matcher with no field matcher is
/// triggered, as far as its events go, by every control-change message.
pub proof fn lemma_macro_with_dont_care_matcher(m: Macro, k: int, msg: MidiMessage, s: State)
    requires
        0 <= k < m.spec_match_events().len(),
        m.spec_match_events()[k] == EventMatcher::Midi(
            MidiEventMatcher::ControlChange { channel_match: None, control_match: None, value_match: None },
        ),
        msg is ControlChange,
    ensures
        any_event_matches(m.spec_match_events(), Event::Midi(msg), s),
{
    lemma_dont_care_matches_every_message(msg, s);
    assert(m.spec_match_events()[k].spec_matches(Event::Midi(msg), s));
}

/// Scope: without a scope a macro's gate accepts every focused window;
/// with a scope whose class must equal `class`, only a window of that class.
pub proof fn lemma_scope(s: State, class: String)
    ensures
        s.spec_matches_scope(None),
        s.spec_matches_scope(
            Some(Scope { window_class: Some(StringMatcher::Equals(class)), window_name: None }),
        ) <==> s.focus_class() == class@,
{
}

/// The index of the first macro of `macros` that fires on `event` in
/// `state`, if any.
pub fn find_winner(macros: &Vec<Macro>, event: &Event, state: &State) -> (r: Option<usize>)
    ensures
        r matches Some(i) ==> Some(i as int) == winner(macros@, *event, *state),
        r is None ==> winner(macros@, *event, *state) is None,
{
    let mut i: usize = 0;
    assert(macros@.skip(0) =~= macros@);
    while i < macros.len()
        invariant
            i <= macros.len(),
            winner(macros@, *event, *state) == match winner(macros@.skip(i as int), *event, *state) {
                Some(k) => Some(k + i),
                None => None,
            },
        decreases macros.len() - i,
    {
        let ghost rest = macros@.skip(i as int);
        assert(rest.drop_first() =~= macros@.skip(i + 1));
        if macros[i].evaluate(event, state).is_some() {
            return Some(i);
        }
        i = i + 1;
    }
    None
}

/// The resolved rule set.
pub struct Config {
    pub macros: Vec<Macro>,
}

impl Config {
    /// The actions of the first macro that fires on `event` in `state`.
    pub fn evaluate<'a>(&'a self, event: &Event, state: &State) -> (r: Option<&'a Vec<Action>>)
        ensures
            r is Some <==> winner(self.macros@, *event, *state) is Some,
            r matches Some(a) ==> a@ == self.macros@[winner(self.macros@, *event, *state)->0].spec_actions(),
    {
        proof {
            lemma_winner_first(self.macros@, *event, *state);
        }
        match find_winner(&self.macros, event, state) {
            Some(i) => self.macros[i].evaluate(event, state),
            None => None,
        }
    }
}

} // verus!
