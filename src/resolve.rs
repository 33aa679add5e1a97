//! Resolution of a version-tagged configuration document into a `Config`.
//!
//! Schema version "1": the root is a hash whose `macros` entry lists the
//! macros in declaration order. Each macro is a hash with an optional `name`
//! text, a non-empty `match_events` list, an optional
//! `required_preconditions` list, an optional `scope` hash and an `actions`
//! list. An optional field that is absent takes its default; any field that
//! is present must have the expected shape.

use vstd::prelude::*;
use crate::config::ConfigError;
use crate::engine::Config;
use crate::event_matching::{EventMatcher, MidiEventMatcher};
use crate::macros::{Macro, MacroBuilder, Scope};
use crate::match_checker::{NumberMatcher, StringMatcher, same_text};
use crate::preconditions::{Condition, Precondition};
use crate::raw_config::{RawConfig, get_field, get_string, hash_get, hash_get_string};
use crate::resolve_actions::{action_resolves, action_valid, build_action};
use crate::actions::Action;

verus! {

/// A number matcher: an integer (that value), a hash with integer `min` and
/// `max` (that inclusive range), or the text "any".
pub open spec fn number_matcher_of(raw: RawConfig) -> Option<NumberMatcher> {
    match raw {
        RawConfig::Integer(n) => Some(NumberMatcher::Val(n)),
        RawConfig::Hash(h) => match (hash_get(h@, "min"@), hash_get(h@, "max"@)) {
            (Some(RawConfig::Integer(lo)), Some(RawConfig::Integer(hi))) => Some(
                NumberMatcher::Range(lo, hi),
            ),
            _ => None,
        },
        RawConfig::String(s) => if s@ == "any"@ {
            Some(NumberMatcher::Any)
        } else {
            None
        },
        _ => None,
    }
}

/// An optional field holding a number matcher: `Some(None)` when absent,
/// `None` when present with another shape.
pub open spec fn opt_number_field(h: Seq<(String, RawConfig)>, key: Seq<char>) -> Option<
    Option<NumberMatcher>,
> {
    match hash_get(h, key) {
        None => Some(None),
        Some(v) => match number_matcher_of(v) {
            Some(m) => Some(Some(m)),
            None => None,
        },
    }
}

pub fn build_number_matcher(raw: &RawConfig) -> (r: Result<NumberMatcher, ConfigError>)
    ensures
        r is Ok <==> number_matcher_of(*raw) is Some,
        r matches Ok(m) ==> m == number_matcher_of(*raw)->0,
        r matches Err(e) ==> e is InvalidConfig,
{
    match raw {
        RawConfig::Integer(n) => Ok(NumberMatcher::Val(*n)),
        RawConfig::Hash(h) => match (get_field(h, "min"), get_field(h, "max")) {
            (Some(RawConfig::Integer(lo)), Some(RawConfig::Integer(hi))) => Ok(
                NumberMatcher::Range(*lo, *hi),
            ),
            _ => Err(
                ConfigError::InvalidConfig("Number matcher: a range needs integer 'min' and 'max'".to_string()),
            ),
        },
        RawConfig::String(s) => if same_text(s.as_str(), "any") {
            Ok(NumberMatcher::Any)
        } else {
            Err(ConfigError::InvalidConfig("Number matcher: unknown text".to_string()))
        },
        _ => Err(ConfigError::InvalidConfig("Number matcher: wrong shape".to_string())),
    }
}

fn number_field(h: &Vec<(String, RawConfig)>, key: &str) -> (r: Result<Option<NumberMatcher>, ConfigError>)
    ensures
        r is Ok <==> opt_number_field(h@, key@) is Some,
        r matches Ok(m) ==> m == opt_number_field(h@, key@)->0,
        r matches Err(e) ==> e is InvalidConfig,
{
    match get_field(h, key) {
        None => Ok(None),
        Some(v) => Ok(Some(build_number_matcher(v)?)),
    }
}

/// The MIDI event matcher a hash describes: its `type` names the message
/// kind, and each field matcher is optional.
pub open spec fn event_matcher_of(raw: RawConfig) -> Option<EventMatcher> {
    match raw {
        RawConfig::Hash(h) => {
            let ch = opt_number_field(h@, "channel"@);
            match hash_get_string(h@, "type"@) {
                Some(kind) => if kind@ == "control_change"@ {
                    let a = opt_number_field(h@, "control"@);
                    let b = opt_number_field(h@, "value"@);
                    if ch is Some && a is Some && b is Some {
                        Some(EventMatcher::Midi(MidiEventMatcher::ControlChange {
                            channel_match: ch->0, control_match: a->0, value_match: b->0,
                        }))
                    } else {
                        None
                    }
                } else if kind@ == "note_on"@ || kind@ == "note_off"@ {
                    let a = opt_number_field(h@, "key"@);
                    let b = opt_number_field(h@, "velocity"@);
                    if ch is Some && a is Some && b is Some {
                        if kind@ == "note_on"@ {
                            Some(EventMatcher::Midi(MidiEventMatcher::NoteOn {
                                channel_match: ch->0, key_match: a->0, velocity_match: b->0,
                            }))
                        } else {
                            Some(EventMatcher::Midi(MidiEventMatcher::NoteOff {
                                channel_match: ch->0, key_match: a->0, velocity_match: b->0,
                            }))
                        }
                    } else {
                        None
                    }
                } else if kind@ == "program_change"@ {
                    let a = opt_number_field(h@, "program"@);
                    if ch is Some && a is Some {
                        Some(EventMatcher::Midi(MidiEventMatcher::ProgramChange {
                            channel_match: ch->0, program_match: a->0,
                        }))
                    } else {
                        None
                    }
                } else {
                    None
                },
                None => None,
            }
        },
        _ => None,
    }
}

pub fn build_event_matcher(raw: &RawConfig) -> (r: Result<EventMatcher, ConfigError>)
    ensures
        r is Ok <==> event_matcher_of(*raw) is Some,
        r matches Ok(m) ==> m == event_matcher_of(*raw)->0,
        r matches Err(e) ==> e is InvalidConfig,
{
    let h = match raw {
        RawConfig::Hash(h) => h,
        _ => {
            return Err(ConfigError::InvalidConfig("Event matcher: should be a hash".to_string()));
        },
    };
    let kind = match get_string(h, "type") {
        Some(k) => k,
        None => {
            return Err(ConfigError::InvalidConfig("Event matcher: lacks a 'type' text".to_string()));
        },
    };
    let channel_match = number_field(h, "channel")?;
    if same_text(kind.as_str(), "control_change") {
        let control_match = number_field(h, "control")?;
        let value_match = number_field(h, "value")?;
        Ok(EventMatcher::Midi(MidiEventMatcher::ControlChange { channel_match, control_match, value_match }))
    } else if same_text(kind.as_str(), "note_on") || same_text(kind.as_str(), "note_off") {
        let key_match = number_field(h, "key")?;
        let velocity_match = number_field(h, "velocity")?;
        if same_text(kind.as_str(), "note_on") {
            Ok(EventMatcher::Midi(MidiEventMatcher::NoteOn { channel_match, key_match, velocity_match }))
        } else {
            Ok(EventMatcher::Midi(MidiEventMatcher::NoteOff { channel_match, key_match, velocity_match }))
        }
    } else if same_text(kind.as_str(), "program_change") {
        let program_match = number_field(h, "program")?;
        Ok(EventMatcher::Midi(MidiEventMatcher::ProgramChange { channel_match, program_match }))
    } else {
        Err(ConfigError::InvalidConfig("Event matcher: unknown type".to_string()))
    }
}

/// A string matcher: a text (equal to it), or a hash holding one of
/// `contains`, `starts_with`, `ends_with` (looked for in that order) with a
/// text.
pub open spec fn string_matcher_of(raw: RawConfig) -> Option<StringMatcher> {
    match raw {
        RawConfig::String(s) => Some(StringMatcher::Equals(s)),
        RawConfig::Hash(h) => if hash_get_string(h@, "contains"@) is Some {
            Some(StringMatcher::Contains(hash_get_string(h@, "contains"@)->0))
        } else if hash_get_string(h@, "starts_with"@) is Some {
            Some(StringMatcher::StartsWith(hash_get_string(h@, "starts_with"@)->0))
        } else if hash_get_string(h@, "ends_with"@) is Some {
            Some(StringMatcher::EndsWith(hash_get_string(h@, "ends_with"@)->0))
        } else {
            None
        },
        _ => None,
    }
}

pub fn build_string_matcher(raw: &RawConfig) -> (r: Result<StringMatcher, ConfigError>)
    ensures
        r is Ok <==> string_matcher_of(*raw) is Some,
        r matches Ok(m) ==> m == string_matcher_of(*raw)->0,
        r matches Err(e) ==> e is InvalidConfig,
{
    match raw {
        RawConfig::String(s) => Ok(StringMatcher::Equals(s.clone())),
        RawConfig::Hash(h) => {
            if let Some(s) = get_string(h, "contains") {
                Ok(StringMatcher::Contains(s.clone()))
            } else if let Some(s) = get_string(h, "starts_with") {
                Ok(StringMatcher::StartsWith(s.clone()))
            } else if let Some(s) = get_string(h, "ends_with") {
                Ok(StringMatcher::EndsWith(s.clone()))
            } else {
                Err(ConfigError::InvalidConfig("String matcher: no known mode".to_string()))
            }
        },
        _ => Err(ConfigError::InvalidConfig("String matcher: wrong shape".to_string())),
    }
}

/// An optional field holding a string matcher: `Some(None)` when absent,
/// `None` when present with another shape.
pub open spec fn opt_string_field(h: Seq<(String, RawConfig)>, key: Seq<char>) -> Option<
    Option<StringMatcher>,
> {
    match hash_get(h, key) {
        None => Some(None),
        Some(v) => match string_matcher_of(v) {
            Some(m) => Some(Some(m)),
            None => None,
        },
    }
}

/// A scope: a hash with optional `window_class` and `window_name` string
/// matchers.
pub open spec fn scope_of(raw: RawConfig) -> Option<Scope> {
    match raw {
        RawConfig::Hash(h) => {
            let c = opt_string_field(h@, "window_class"@);
            let n = opt_string_field(h@, "window_name"@);
            if c is Some && n is Some {
                Some(Scope { window_class: c->0, window_name: n->0 })
            } else {
                None
            }
        },
        _ => None,
    }
}

fn string_field(h: &Vec<(String, RawConfig)>, key: &str) -> (r: Result<Option<StringMatcher>, ConfigError>)
    ensures
        r is Ok <==> opt_string_field(h@, key@) is Some,
        r matches Ok(m) ==> m == opt_string_field(h@, key@)->0,
        r matches Err(e) ==> e is InvalidConfig,
{
    match get_field(h, key) {
        None => Ok(None),
        Some(v) => Ok(Some(build_string_matcher(v)?)),
    }
}

pub fn build_scope(raw: &RawConfig) -> (r: Result<Scope, ConfigError>)
    ensures
        r is Ok <==> scope_of(*raw) is Some,
        r matches Ok(s) ==> s == scope_of(*raw)->0,
        r matches Err(e) ==> e is InvalidConfig,
{
    match raw {
        RawConfig::Hash(h) => {
            let window_class = string_field(h, "window_class")?;
            let window_name = string_field(h, "window_name")?;
            Ok(Scope::new(window_class, window_name))
        },
        _ => Err(ConfigError::InvalidConfig("Scope: should be a hash".to_string())),
    }
}

/// An integer that fits a MIDI data byte field.
pub open spec fn byte_field(h: Seq<(String, RawConfig)>, key: Seq<char>) -> Option<u8> {
    match hash_get(h, key) {
        Some(RawConfig::Integer(n)) => if 0 <= n <= 255 {
            Some(n as u8)
        } else {
            None
        },
        _ => None,
    }
}

/// A precondition: a hash whose `type` is `control_value` (with `channel`,
/// `control` and a `value` number matcher) or `note_held` (with `channel` and
/// `key`), and an optional `invert` flag (false when absent).
pub open spec fn precondition_of(raw: RawConfig) -> Option<Precondition> {
    match raw {
        RawConfig::Hash(h) => {
            let invert = match hash_get(h@, "invert"@) {
                None => Some(false),
                Some(RawConfig::Bool(b)) => Some(b),
                _ => None,
            };
            let ch = byte_field(h@, "channel"@);
            let cond = match hash_get_string(h@, "type"@) {
                Some(kind) => if kind@ == "control_value"@ {
                    match (ch, byte_field(h@, "control"@), hash_get(h@, "value"@)) {
                        (Some(c), Some(n), Some(v)) => match number_matcher_of(v) {
                            Some(m) => Some(Condition::ControlValue { channel: c, control: n, value_match: m }),
                            None => None,
                        },
                        _ => None,
                    }
                } else if kind@ == "note_held"@ {
                    match (ch, byte_field(h@, "key"@)) {
                        (Some(c), Some(k)) => Some(Condition::NoteHeld { channel: c, key: k }),
                        _ => None,
                    }
                } else {
                    None
                },
                None => None,
            };
            if invert is Some && cond is Some {
                Some(Precondition { invert: invert->0, condition: cond->0 })
            } else {
                None
            }
        },
        _ => None,
    }
}

fn byte_from(h: &Vec<(String, RawConfig)>, key: &str) -> (r: Result<u8, ConfigError>)
    ensures
        r is Ok <==> byte_field(h@, key@) is Some,
        r matches Ok(b) ==> b == byte_field(h@, key@)->0,
        r matches Err(e) ==> e is InvalidConfig,
{
    match get_field(h, key) {
        Some(RawConfig::Integer(n)) => if 0 <= *n && *n <= 255 {
            Ok(*n as u8)
        } else {
            Err(ConfigError::InvalidConfig("Precondition: number out of range 0..=255".to_string()))
        },
        _ => Err(ConfigError::InvalidConfig("Precondition: lacks an integer field".to_string())),
    }
}

pub fn build_precondition(raw: &RawConfig) -> (r: Result<Precondition, ConfigError>)
    ensures
        r is Ok <==> precondition_of(*raw) is Some,
        r matches Ok(p) ==> p == precondition_of(*raw)->0,
        r matches Err(e) ==> e is InvalidConfig,
{
    let h = match raw {
        RawConfig::Hash(h) => h,
        _ => {
            return Err(ConfigError::InvalidConfig("Precondition: should be a hash".to_string()));
        },
    };
    let invert = match get_field(h, "invert") {
        None => false,
        Some(RawConfig::Bool(b)) => *b,
        Some(_) => {
            return Err(ConfigError::InvalidConfig("Precondition: invert should be a boolean".to_string()));
        },
    };
    let kind = match get_string(h, "type") {
        Some(k) => k,
        None => {
            return Err(ConfigError::InvalidConfig("Precondition: lacks a 'type' text".to_string()));
        },
    };
    let condition = if same_text(kind.as_str(), "control_value") {
        let channel = byte_from(h, "channel")?;
        let control = byte_from(h, "control")?;
        let value_match = match get_field(h, "value") {
            Some(v) => build_number_matcher(v)?,
            None => {
                return Err(ConfigError::InvalidConfig("Precondition: lacks a 'value' matcher".to_string()));
            },
        };
        Condition::ControlValue { channel, control, value_match }
    } else if same_text(kind.as_str(), "note_held") {
        let channel = byte_from(h, "channel")?;
        let key = byte_from(h, "key")?;
        Condition::NoteHeld { channel, key }
    } else {
        return Err(ConfigError::InvalidConfig("Precondition: unknown type".to_string()));
    };
    Ok(Precondition::new(condition, invert))
}

/// Every item of the list describes an event matcher.
pub open spec fn all_event_matchers(l: Seq<RawConfig>) -> bool {
    forall|j: int| 0 <= j < l.len() ==> (#[trigger] event_matcher_of(l[j])) is Some
}

/// Every item of the list describes a precondition.
pub open spec fn all_preconditions(l: Seq<RawConfig>) -> bool {
    forall|j: int| 0 <= j < l.len() ==> (#[trigger] precondition_of(l[j])) is Some
}

/// Every item of the list describes an action.
pub open spec fn all_actions(l: Seq<RawConfig>) -> bool {
    forall|j: int| 0 <= j < l.len() ==> #[trigger] action_valid(l[j])
}

/// The actions resolve, one for one and in order, from the list.
pub open spec fn actions_resolve(l: Seq<RawConfig>, acts: Seq<Action>) -> bool {
    acts.len() == l.len() && forall|j: int| 0 <= j < l.len() ==> #[trigger] action_resolves(l[j], acts[j])
}

/// Whether a hash describes a macro.
pub open spec fn macro_valid(raw: RawConfig) -> bool {
    match raw {
        RawConfig::Hash(h) => {
            &&& match hash_get(h@, "name"@) {
                None => true,
                Some(RawConfig::String(_)) => true,
                _ => false,
            }
            &&& match hash_get(h@, "match_events"@) {
                Some(RawConfig::List(l)) => l@.len() > 0 && all_event_matchers(l@),
                _ => false,
            }
            &&& match hash_get(h@, "required_preconditions"@) {
                None => true,
                Some(RawConfig::List(l)) => all_preconditions(l@),
                _ => false,
            }
            &&& match hash_get(h@, "scope"@) {
                None => true,
                Some(s) => scope_of(s) is Some,
            }
            &&& match hash_get(h@, "actions"@) {
                Some(RawConfig::List(l)) => all_actions(l@),
                _ => false,
            }
        },
        _ => false,
    }
}

/// `m` is the macro that a valid `raw` describes.
pub open spec fn macro_resolves(raw: RawConfig, m: Macro) -> bool {
    match raw {
        RawConfig::Hash(h) => {
            &&& m.spec_name() == match hash_get(h@, "name"@) {
                Some(RawConfig::String(s)) => Some(s),
                _ => None,
            }
            &&& match hash_get(h@, "match_events"@) {
                Some(RawConfig::List(l)) => m.spec_match_events() == l@.map_values(
                    |r: RawConfig| event_matcher_of(r)->0,
                ),
                _ => false,
            }
            &&& m.spec_preconditions() == match hash_get(h@, "required_preconditions"@) {
                Some(RawConfig::List(l)) => Some(l@.map_values(|r: RawConfig| precondition_of(r)->0)),
                _ => None,
            }
            &&& m.spec_scope() == match hash_get(h@, "scope"@) {
                Some(s) => Some(scope_of(s)->0),
                None => None,
            }
            &&& match hash_get(h@, "actions"@) {
                Some(RawConfig::List(l)) => actions_resolve(l@, m.spec_actions()),
                _ => false,
            }
        },
        _ => false,
    }
}

fn event_matchers_from(l: &Vec<RawConfig>) -> (r: Result<Vec<EventMatcher>, ConfigError>)
    ensures
        r is Ok <==> all_event_matchers(l@),
        r matches Ok(v) ==> v@ == l@.map_values(|r: RawConfig| event_matcher_of(r)->0),
        r matches Err(e) ==> e is InvalidConfig,
{
    let mut out: Vec<EventMatcher> = Vec::new();
    let mut i: usize = 0;
    while i < l.len()
        invariant
            i <= l.len(),
            out@ == l@.subrange(0, i as int).map_values(|r: RawConfig| event_matcher_of(r)->0),
            forall|j: int| 0 <= j < i ==> (#[trigger] event_matcher_of(l@[j])) is Some,
        decreases l.len() - i,
    {
        let m = build_event_matcher(&l[i])?;
        out.push(m);
        assert(out@ =~= l@.subrange(0, i + 1).map_values(|r: RawConfig| event_matcher_of(r)->0));
        i = i + 1;
    }
    assert(l@.subrange(0, l.len() as int) =~= l@);
    Ok(out)
}

fn preconditions_from(l: &Vec<RawConfig>) -> (r: Result<Vec<Precondition>, ConfigError>)
    ensures
        r is Ok <==> all_preconditions(l@),
        r matches Ok(v) ==> v@ == l@.map_values(|r: RawConfig| precondition_of(r)->0),
        r matches Err(e) ==> e is InvalidConfig,
{
    let mut out: Vec<Precondition> = Vec::new();
    let mut i: usize = 0;
    while i < l.len()
        invariant
            i <= l.len(),
            out@ == l@.subrange(0, i as int).map_values(|r: RawConfig| precondition_of(r)->0),
            forall|j: int| 0 <= j < i ==> (#[trigger] precondition_of(l@[j])) is Some,
        decreases l.len() - i,
    {
        let p = build_precondition(&l[i])?;
        out.push(p);
        assert(out@ =~= l@.subrange(0, i + 1).map_values(|r: RawConfig| precondition_of(r)->0));
        i = i + 1;
    }
    assert(l@.subrange(0, l.len() as int) =~= l@);
    Ok(out)
}

fn actions_from(l: &Vec<RawConfig>) -> (r: Result<Vec<Action>, ConfigError>)
    ensures
        r is Ok <==> all_actions(l@),
        r matches Ok(v) ==> actions_resolve(l@, v@),
        r matches Err(e) ==> e is InvalidConfig,
{
    let mut out: Vec<Action> = Vec::new();
    let mut i: usize = 0;
    while i < l.len()
        invariant
            i <= l.len(),
            out@.len() == i,
            forall|j: int| 0 <= j < i ==> #[trigger] action_valid(l@[j]),
            forall|j: int| 0 <= j < i ==> #[trigger] action_resolves(l@[j], out@[j]),
        decreases l.len() - i,
    {
        let a = build_action(&l[i])?;
        out.push(a);
        i = i + 1;
    }
    Ok(out)
}

/// Builds a macro from its hash.
pub fn build_macro(raw: &RawConfig) -> (r: Result<Macro, ConfigError>)
    ensures
        r is Ok <==> macro_valid(*raw),
        r matches Ok(m) ==> macro_resolves(*raw, m),
        r matches Err(e) ==> e is InvalidConfig,
{
    let h = match raw {
        RawConfig::Hash(h) => h,
        _ => {
            return Err(ConfigError::InvalidConfig("Macro: should be a hash".to_string()));
        },
    };
    let name = match get_field(h, "name") {
        None => None,
        Some(RawConfig::String(s)) => Some(s.clone()),
        Some(_) => {
            return Err(ConfigError::InvalidConfig("Macro: name should be a text".to_string()));
        },
    };
    let events = match get_field(h, "match_events") {
        Some(RawConfig::List(l)) => {
            if l.len() == 0 {
                return Err(ConfigError::InvalidConfig("Macro: match_events is empty".to_string()));
            }
            event_matchers_from(l)?
        },
        _ => {
            return Err(ConfigError::InvalidConfig("Macro: lacks a 'match_events' list".to_string()));
        },
    };
    let preconditions = match get_field(h, "required_preconditions") {
        None => None,
        Some(RawConfig::List(l)) => Some(preconditions_from(l)?),
        Some(_) => {
            return Err(
                ConfigError::InvalidConfig("Macro: required_preconditions should be a list".to_string()),
            );
        },
    };
    let scope = match get_field(h, "scope") {
        None => None,
        Some(s) => Some(build_scope(s)?),
    };
    let actions = match get_field(h, "actions") {
        Some(RawConfig::List(l)) => actions_from(l)?,
        _ => {
            return Err(ConfigError::InvalidConfig("Macro: lacks an 'actions' list".to_string()));
        },
    };
    let mut builder = MacroBuilder::from_event_matchers(events).set_actions(actions);
    if let Some(n) = name {
        builder = builder.set_name(n);
    }
    if let Some(ps) = preconditions {
        builder = builder.set_preconditions(ps);
    }
    if let Some(s) = scope {
        builder = builder.set_scope(s);
    }
    builder.build()
}

/// Every item of the list describes a macro.
pub open spec fn all_macros(l: Seq<RawConfig>) -> bool {
    forall|j: int| 0 <= j < l.len() ==> #[trigger] macro_valid(l[j])
}

/// Whether a document of the given schema version describes a configuration.
pub open spec fn config_valid(raw: RawConfig, version: Seq<char>) -> bool {
    &&& version == "1"@
    &&& match raw {
        RawConfig::Hash(h) => match hash_get(h@, "macros"@) {
            Some(RawConfig::List(l)) => all_macros(l@),
            _ => false,
        },
        _ => false,
    }
}

/// `c` holds the macros that a valid document describes, in declaration order.
pub open spec fn config_resolves(raw: RawConfig, c: Config) -> bool {
    match raw {
        RawConfig::Hash(h) => match hash_get(h@, "macros"@) {
            Some(RawConfig::List(l)) => c.macros@.len() == l@.len() && forall|j: int|
                0 <= j < l@.len() ==> #[trigger] macro_resolves(l@[j], c.macros@[j]),
            _ => false,
        },
        _ => false,
    }
}

/// Resolves a parsed document of the given schema version into a
/// configuration; nothing of an invalid document is kept.
pub fn resolve_config(raw: &RawConfig, version: &str) -> (r: Result<Config, ConfigError>)
    ensures
        r is Ok <==> config_valid(*raw, version@),
        r matches Ok(c) ==> config_resolves(*raw, c),
        r matches Err(e) ==> e is InvalidConfig,
{
    if !same_text(version, "1") {
        return Err(ConfigError::InvalidConfig("Config: unsupported schema version".to_string()));
    }
    let ghost doc = *raw;
    let l = match raw {
        RawConfig::Hash(h) => match get_field(h, "macros") {
            Some(RawConfig::List(l)) => l,
            _ => {
                return Err(ConfigError::InvalidConfig("Config: lacks a 'macros' list".to_string()));
            },
        },
        _ => {
            return Err(ConfigError::InvalidConfig("Config: should be a hash".to_string()));
        },
    };
    let mut macros: Vec<Macro> = Vec::new();
    let mut i: usize = 0;
    while i < l.len()
        invariant
            i <= l.len(),
            macros@.len() == i,
            forall|j: int| 0 <= j < i ==> #[trigger] macro_valid(l@[j]),
            forall|j: int| 0 <= j < i ==> #[trigger] macro_resolves(l@[j], macros@[j]),
            doc == *raw,
            version@ == "1"@,
            doc matches RawConfig::Hash(h) && hash_get(h@, "macros"@) == Some(RawConfig::List(*l)),
        decreases l.len() - i,
    {
        let m = match build_macro(&l[i]) {
            Ok(m) => m,
            Err(e) => {
                assert(!macro_valid(l@[i as int]));
                return Err(e);
            },
        };
        macros.push(m);
        i = i + 1;
    }
    Ok(Config { macros })
}

/// A document without its `macros` list never resolves.
pub proof fn lemma_missing_macros_rejected(raw: RawConfig, version: Seq<char>)
    requires
        raw matches RawConfig::Hash(h) && hash_get(h@, "macros"@) is None,
    ensures
        !config_valid(raw, version),
{
}

/// A macro without its `match_events` or its `actions` list never resolves,
/// and a document that holds one never resolves either.
pub proof fn lemma_missing_macro_field_rejected(
    h: Vec<(String, RawConfig)>,
    version: Seq<char>,
    l: Vec<RawConfig>,
    j: int,
    mh: Vec<(String, RawConfig)>,
)
    requires
        hash_get(h@, "macros"@) == Some(RawConfig::List(l)),
        0 <= j < l@.len(),
        l@[j] == RawConfig::Hash(mh),
        hash_get(mh@, "match_events"@) is None || hash_get(mh@, "actions"@) is None,
    ensures
        !macro_valid(l@[j]),
        !config_valid(RawConfig::Hash(h), version),
{
    assert(!macro_valid(l@[j]));
}

} // verus!
