//! Resolution of actions from configuration documents.
//!
//! An action is a hash `{type: <kind>, data: <value>}` whose kind is one of
//! `key_sequence`, `enter_text`, `shell` and `combination`.

use vstd::prelude::*;
use crate::actions::{Action, opt_seq};
use crate::config::ConfigError;
use crate::match_checker::same_text;
use crate::raw_config::{
    RawConfig, get_field, get_integer, get_string, hash_get, hash_get_integer, hash_get_string,
    hash_index, lemma_hash_index_in_range,
};

verus! {

broadcast use vstd::std_specs::vec::axiom_vec_index_decreases, vstd::std_specs::vec::axiom_vec_decreases_to_view;

/// A key sequence or a text with its repeat count: either the text alone
/// (count 1), or a hash with the text under `field` and an optional `count`
/// (1 when absent or not an integer). A negative count is refused, and so is
/// one that a `usize` cannot hold.
pub open spec fn repeated_text_of(raw: Option<RawConfig>, field: Seq<char>) -> Option<(String, usize)> {
    match raw {
        Some(RawConfig::String(s)) => Some((s, 1usize)),
        Some(RawConfig::Hash(h)) => match hash_get_string(h@, field) {
            Some(s) => {
                let count = match hash_get_integer(h@, "count"@) {
                    Some(c) => c,
                    None => 1,
                };
                if count < 0 || count > usize::MAX {
                    None
                } else {
                    Some((s, count as usize))
                }
            },
            None => None,
        },
        _ => None,
    }
}

/// The `KeySequence` action that `raw` describes, if it describes one.
pub open spec fn key_sequence_of(raw: Option<RawConfig>) -> Option<Action> {
    match repeated_text_of(raw, "sequence"@) {
        Some((s, n)) => Some(Action::KeySequence(s, n)),
        None => None,
    }
}

/// The `EnterText` action that `raw` describes, if it describes one.
pub open spec fn enter_text_of(raw: Option<RawConfig>) -> Option<Action> {
    match repeated_text_of(raw, "text"@) {
        Some((s, n)) => Some(Action::EnterText(s, n)),
        None => None,
    }
}

/// The value behind an optional reference.
pub open spec fn deref_opt(o: Option<&RawConfig>) -> Option<RawConfig> {
    match o {
        Some(r) => Some(*r),
        None => None,
    }
}

/// A negative count is refused, for key sequences and texts alike.
pub proof fn lemma_negative_count_rejected(h: Vec<(String, RawConfig)>)
    requires
        hash_get_integer(h@, "count"@) matches Some(c) && c < 0,
    ensures
        key_sequence_of(Some(RawConfig::Hash(h))) is None,
        enter_text_of(Some(RawConfig::Hash(h))) is None,
{
}

fn repeated_text(raw_data: Option<&RawConfig>, field: &str) -> (r: Result<(String, usize), ConfigError>)
    ensures
        r is Ok <==> repeated_text_of(deref_opt(raw_data), field@) is Some,
        r matches Ok(p) ==> p == repeated_text_of(deref_opt(raw_data), field@)->0,
        r matches Err(e) ==> e is InvalidConfig,
{
    let raw_data = match raw_data {
        Some(d) => d,
        None => {
            return Err(ConfigError::InvalidConfig("Action: missing data field".to_string()));
        },
    };
    match raw_data {
        RawConfig::String(sequence) => Ok((sequence.clone(), 1)),
        RawConfig::Hash(hash) => {
            let text = match get_string(hash, field) {
                Some(s) => s,
                None => {
                    return Err(
                        ConfigError::InvalidConfig(
                            "Action: data field lacks its text field".to_string(),
                        ),
                    );
                },
            };
            let count = match get_integer(hash, "count") {
                Some(c) => c,
                None => 1,
            };
            if count < 0 {
                Err(ConfigError::InvalidConfig("Action: count should be 0 or more".to_string()))
            } else if count as u64 > usize::MAX as u64 {
                Err(ConfigError::InvalidConfig("Action: count is too large".to_string()))
            } else {
                Ok((text.clone(), count as usize))
            }
        },
        _ => Err(
            ConfigError::InvalidConfig(
                "Action: data field should be either string or hash, but was neither".to_string(),
            ),
        ),
    }
}

/// Builds an `Action::KeySequence` from its data: the key sequence itself
/// (such as "ctrl+shift+t"), or a hash with `sequence` and an optional
/// `count`.
pub fn build_action_key_sequence(raw_data: Option<&RawConfig>) -> (r: Result<Action, ConfigError>)
    ensures
        r is Ok <==> key_sequence_of(deref_opt(raw_data)) is Some,
        r matches Ok(a) ==> a == key_sequence_of(deref_opt(raw_data))->0,
        r matches Err(e) ==> e is InvalidConfig,
{
    let (sequence, count) = repeated_text(raw_data, "sequence")?;
    Ok(Action::KeySequence(sequence, count))
}

/// Builds an `Action::EnterText` from its data: the text itself, or a hash
/// with `text` and an optional `count`.
pub fn build_action_enter_text(raw_data: Option<&RawConfig>) -> (r: Result<Action, ConfigError>)
    ensures
        r is Ok <==> enter_text_of(deref_opt(raw_data)) is Some,
        r matches Ok(a) ==> a == enter_text_of(deref_opt(raw_data))->0,
        r matches Err(e) ==> e is InvalidConfig,
{
    let (text, count) = repeated_text(raw_data, "text")?;
    Ok(Action::EnterText(text, count))
}

/// Every item of the list is a text.
pub open spec fn all_strings(l: Seq<RawConfig>) -> bool {
    forall|i: int| 0 <= i < l.len() ==> (#[trigger] l[i]) is String
}

/// The texts of a list of texts.
pub open spec fn strings_of(l: Seq<RawConfig>) -> Seq<String> {
    l.map_values(|r: RawConfig| r->String_0)
}

/// Every value of the hash is a text.
pub open spec fn all_string_values(h: Seq<(String, RawConfig)>) -> bool {
    forall|i: int| 0 <= i < h.len() ==> (#[trigger] h[i]).1 is String
}

/// The key and text pairs of a hash of texts.
pub open spec fn string_pairs_of(h: Seq<(String, RawConfig)>) -> Seq<(String, String)> {
    h.map_values(|p: (String, RawConfig)| (p.0, p.1->String_0))
}

/// The data of a shell action: a hash with a `command` text, an optional
/// `args` list of texts, and an optional `env_vars` hash of texts.
pub open spec fn shell_valid(raw: Option<RawConfig>) -> bool {
    match raw {
        Some(RawConfig::Hash(h)) => {
            &&& hash_get_string(h@, "command"@) is Some
            &&& match hash_get(h@, "args"@) {
                None => true,
                Some(RawConfig::List(l)) => all_strings(l@),
                _ => false,
            }
            &&& match hash_get(h@, "env_vars"@) {
                None => true,
                Some(RawConfig::Hash(e)) => all_string_values(e@),
                _ => false,
            }
        },
        _ => false,
    }
}

/// `a` is the shell action that valid shell data `raw` describes.
pub open spec fn shell_resolves(raw: Option<RawConfig>, a: Action) -> bool {
    match (raw, a) {
        (Some(RawConfig::Hash(h)), Action::Shell { command, args, env_vars }) => {
            &&& command == hash_get_string(h@, "command"@)->0
            &&& opt_seq(args) == match hash_get(h@, "args"@) {
                Some(RawConfig::List(l)) => Some(strings_of(l@)),
                _ => None,
            }
            &&& opt_seq(env_vars) == match hash_get(h@, "env_vars"@) {
                Some(RawConfig::Hash(e)) => Some(string_pairs_of(e@)),
                _ => None,
            }
        },
        _ => false,
    }
}

fn strings_from(l: &Vec<RawConfig>) -> (r: Result<Vec<String>, ConfigError>)
    ensures
        r is Ok <==> all_strings(l@),
        r matches Ok(v) ==> v@ == strings_of(l@),
        r matches Err(e) ==> e is InvalidConfig,
{
    let mut out: Vec<String> = Vec::new();
    let mut i: usize = 0;
    while i < l.len()
        invariant
            i <= l.len(),
            out@ == strings_of(l@.subrange(0, i as int)),
            forall|k: int| 0 <= k < i ==> (#[trigger] l@[k]) is String,
        decreases l.len() - i,
    {
        match &l[i] {
            RawConfig::String(s) => {
                out.push(s.clone());
            },
            _ => {
                return Err(ConfigError::InvalidConfig("Action shell: args should be texts".to_string()));
            },
        }
        assert(out@ =~= strings_of(l@.subrange(0, i + 1)));
        i = i + 1;
    }
    assert(l@.subrange(0, l.len() as int) =~= l@);
    Ok(out)
}

fn string_pairs_from(h: &Vec<(String, RawConfig)>) -> (r: Result<Vec<(String, String)>, ConfigError>)
    ensures
        r is Ok <==> all_string_values(h@),
        r matches Ok(v) ==> v@ == string_pairs_of(h@),
        r matches Err(e) ==> e is InvalidConfig,
{
    let mut out: Vec<(String, String)> = Vec::new();
    let mut i: usize = 0;
    while i < h.len()
        invariant
            i <= h.len(),
            out@ == string_pairs_of(h@.subrange(0, i as int)),
            forall|k: int| 0 <= k < i ==> (#[trigger] h@[k]).1 is String,
        decreases h.len() - i,
    {
        match &h[i].1 {
            RawConfig::String(s) => {
                out.push((h[i].0.clone(), s.clone()));
            },
            _ => {
                return Err(
                    ConfigError::InvalidConfig("Action shell: env_vars should hold texts".to_string()),
                );
            },
        }
        assert(out@ =~= string_pairs_of(h@.subrange(0, i + 1)));
        i = i + 1;
    }
    assert(h@.subrange(0, h.len() as int) =~= h@);
    Ok(out)
}

/// Builds an `Action::Shell` from its data.
pub fn build_action_shell(raw_data: Option<&RawConfig>) -> (r: Result<Action, ConfigError>)
    ensures
        r is Ok <==> shell_valid(deref_opt(raw_data)),
        r matches Ok(a) ==> shell_resolves(deref_opt(raw_data), a),
        r matches Err(e) ==> e is InvalidConfig,
{
    let hash = match raw_data {
        Some(RawConfig::Hash(h)) => h,
        _ => {
            return Err(ConfigError::InvalidConfig("Action shell: data field should be a hash".to_string()));
        },
    };
    let command = match get_string(hash, "command") {
        Some(c) => c.clone(),
        None => {
            return Err(
                ConfigError::InvalidConfig("Action shell: data field lacks a 'command' text".to_string()),
            );
        },
    };
    let args = match get_field(hash, "args") {
        None => None,
        Some(RawConfig::List(l)) => Some(strings_from(l)?),
        Some(_) => {
            return Err(ConfigError::InvalidConfig("Action shell: args should be a list".to_string()));
        },
    };
    let env_vars = match get_field(hash, "env_vars") {
        None => None,
        Some(RawConfig::Hash(e)) => Some(string_pairs_from(e)?),
        Some(_) => {
            return Err(ConfigError::InvalidConfig("Action shell: env_vars should be a hash".to_string()));
        },
    };
    Ok(Action::Shell { command, args, env_vars })
}

/// Whether `raw` describes an action.
pub open spec fn action_valid(raw: RawConfig) -> bool
    decreases raw,
{
    match raw {
        RawConfig::Hash(h) => match hash_get_string(h@, "type"@) {
            Some(kind) => if kind@ == "key_sequence"@ {
                key_sequence_of(hash_get(h@, "data"@)) is Some
            } else if kind@ == "enter_text"@ {
                enter_text_of(hash_get(h@, "data"@)) is Some
            } else if kind@ == "shell"@ {
                shell_valid(hash_get(h@, "data"@))
            } else if kind@ == "combination"@ {
                match hash_index(h@, "data"@) {
                    Some(i) => 0 <= i < h@.len() && match h@[i].1 {
                        RawConfig::List(l) => forall|j: int|
                            0 <= j < l@.len() ==> action_valid(#[trigger] l@[j]),
                        _ => false,
                    },
                    None => false,
                }
            } else {
                false
            },
            None => false,
        },
        _ => false,
    }
}

/// `a` is the action that a valid `raw` describes.
pub open spec fn action_resolves(raw: RawConfig, a: Action) -> bool
    decreases raw,
{
    match raw {
        RawConfig::Hash(h) => match hash_get_string(h@, "type"@) {
            Some(kind) => if kind@ == "key_sequence"@ {
                key_sequence_of(hash_get(h@, "data"@)) == Some(a)
            } else if kind@ == "enter_text"@ {
                enter_text_of(hash_get(h@, "data"@)) == Some(a)
            } else if kind@ == "shell"@ {
                shell_resolves(hash_get(h@, "data"@), a)
            } else if kind@ == "combination"@ {
                match hash_index(h@, "data"@) {
                    Some(i) => 0 <= i < h@.len() && match (h@[i].1, a) {
                        (RawConfig::List(l), Action::Combination(v)) => v@.len() == l@.len() && forall|j: int|
                            0 <= j < l@.len() ==> action_resolves(#[trigger] l@[j], v@[j]),
                        _ => false,
                    },
                    None => false,
                }
            } else {
                false
            },
            None => false,
        },
        _ => false,
    }
}

/// Builds an action from a hash `{type: <kind>, data: <value>}`.
pub fn build_action(raw: &RawConfig) -> (r: Result<Action, ConfigError>)
    ensures
        r is Ok <==> action_valid(*raw),
        r matches Ok(a) ==> action_resolves(*raw, a),
        r matches Err(e) ==> e is InvalidConfig,
    decreases *raw,
{
    let hash = match raw {
        RawConfig::Hash(h) => h,
        _ => {
            return Err(ConfigError::InvalidConfig("Action: should be a hash".to_string()));
        },
    };
    let kind = match get_string(hash, "type") {
        Some(k) => k,
        None => {
            return Err(ConfigError::InvalidConfig("Action: lacks a 'type' text".to_string()));
        },
    };
    let data = get_field(hash, "data");
    if same_text(kind.as_str(), "key_sequence") {
        build_action_key_sequence(data)
    } else if same_text(kind.as_str(), "enter_text") {
        build_action_enter_text(data)
    } else if same_text(kind.as_str(), "shell") {
        build_action_shell(data)
    } else if same_text(kind.as_str(), "combination") {
        proof {
            lemma_hash_index_in_range(hash@, "data"@);
        }
        let list = match data {
            Some(RawConfig::List(l)) => l,
            _ => {
                return Err(ConfigError::InvalidConfig("Action combination: data should be a list".to_string()));
            },
        };
        let ghost k = hash_index(hash@, "data"@)->0;
        let mut actions: Vec<Action> = Vec::new();
        let mut i: usize = 0;
        while i < list.len()
            invariant
                i <= list.len(),
                0 <= k < hash@.len(),
                hash@[k].1 == RawConfig::List(*list),
                *raw == RawConfig::Hash(*hash),
                hash_index(hash@, "data"@) == Some(k),
                hash_get_string(hash@, "type"@) == Some(*kind),
                kind@ == "combination"@,
                kind@ != "key_sequence"@,
                kind@ != "enter_text"@,
                kind@ != "shell"@,
                actions@.len() == i,
                forall|j: int| 0 <= j < i ==> action_valid(#[trigger] list@[j]),
                forall|j: int| 0 <= j < i ==> action_resolves(#[trigger] list@[j], actions@[j]),
            decreases list.len() - i,
        {
            proof {
                assert(decreases_to!(*raw => (*raw)->Hash_0));
                assert(decreases_to!(*hash => hash@));
                assert(decreases_to!(hash@ => hash@[k]));
                assert(decreases_to!(hash@[k] => hash@[k].1));
                assert(decreases_to!(hash@[k].1 => (hash@[k].1)->List_0));
                assert(decreases_to!(*list => list@[i as int]));
            }
            let a = match build_action(&list[i]) {
                Ok(a) => a,
                Err(e) => {
                    assert(!action_valid(list@[i as int]));
                    assert(!action_valid(*raw));
                    return Err(e);
                },
            };
            actions.push(a);
            i = i + 1;
        }
        Ok(Action::Combination(actions))
    } else {
        Err(ConfigError::InvalidConfig("Action: unknown type".to_string()))
    }
}

} // verus!
