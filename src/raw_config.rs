//! The untyped document a configuration is resolved from.

use vstd::prelude::*;
use crate::match_checker::same_text;

verus! {

/// A parsed configuration tree. A float is held as the bits of its IEEE 754
/// double; a hash is a list of keyed entries, and a key is looked up at its
/// first entry.
#[derive(Debug)]
pub enum RawConfig {
    Null,
    Bool(bool),
    Integer(i64),
    Float(u64),
    String(String),
    List(Vec<RawConfig>),
    Hash(Vec<(String, RawConfig)>),
}

/// The index of the first entry of `h` whose key is `key`.
pub open spec fn hash_index(h: Seq<(String, RawConfig)>, key: Seq<char>) -> Option<int>
    decreases h.len(),
{
    if h.len() == 0 {
        None
    } else if h[0].0@ == key {
        Some(0)
    } else {
        match hash_index(h.drop_first(), key) {
            Some(i) => Some(i + 1),
            None => None,
        }
    }
}

/// The value of the first entry of `h` whose key is `key`.
pub open spec fn hash_get(h: Seq<(String, RawConfig)>, key: Seq<char>) -> Option<RawConfig> {
    match hash_index(h, key) {
        Some(i) => if 0 <= i < h.len() {
            Some(h[i].1)
        } else {
            None
        },
        None => None,
    }
}

/// A found index lies in the hash.
pub proof fn lemma_hash_index_in_range(h: Seq<(String, RawConfig)>, key: Seq<char>)
    ensures
        hash_index(h, key) matches Some(i) ==> 0 <= i < h.len() && h[i].0@ == key,
    decreases h.len(),
{
    if h.len() > 0 && h[0].0@ != key {
        lemma_hash_index_in_range(h.drop_first(), key);
    }
}

/// The text under `key`, if that entry holds one.
pub open spec fn hash_get_string(h: Seq<(String, RawConfig)>, key: Seq<char>) -> Option<String> {
    match hash_get(h, key) {
        Some(RawConfig::String(s)) => Some(s),
        _ => None,
    }
}

/// The integer under `key`, if that entry holds one.
pub open spec fn hash_get_integer(h: Seq<(String, RawConfig)>, key: Seq<char>) -> Option<i64> {
    match hash_get(h, key) {
        Some(RawConfig::Integer(n)) => Some(n),
        _ => None,
    }
}

/// Looks `key` up in a hash.
pub fn get_field<'a>(h: &'a Vec<(String, RawConfig)>, key: &str) -> (r: Option<&'a RawConfig>)
    ensures
        r is Some <==> hash_get(h@, key@) is Some,
        r matches Some(v) ==> *v == hash_get(h@, key@)->0,
{
    let mut i: usize = 0;
    assert(h@.skip(0) =~= h@);
    while i < h.len()
        invariant
            i <= h.len(),
            hash_index(h@, key@) == match hash_index(h@.skip(i as int), key@) {
                Some(k) => Some(k + i),
                None => None,
            },
        decreases h.len() - i,
    {
        assert(h@.skip(i as int).drop_first() =~= h@.skip(i + 1));
        if same_text(h[i].0.as_str(), key) {
            return Some(&h[i].1);
        }
        i = i + 1;
    }
    None
}

/// The text under `key` in a hash, if it holds one.
pub fn get_string<'a>(h: &'a Vec<(String, RawConfig)>, key: &str) -> (r: Option<&'a String>)
    ensures
        r is Some <==> hash_get_string(h@, key@) is Some,
        r matches Some(s) ==> *s == hash_get_string(h@, key@)->0,
{
    match get_field(h, key) {
        Some(RawConfig::String(s)) => Some(s),
        _ => None,
    }
}

/// The integer under `key` in a hash, if it holds one.
pub fn get_integer(h: &Vec<(String, RawConfig)>, key: &str) -> (r: Option<i64>)
    ensures
        r == hash_get_integer(h@, key@),
{
    match get_field(h, key) {
        Some(RawConfig::Integer(n)) => Some(*n),
        _ => None,
    }
}

} // verus!
