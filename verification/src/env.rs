//! Parsing `NAME=value` environment entries into the name/value pairs a run
//! request carries. Each entry is split on its first `=` only; an entry with
//! no `=` yields a pair with an absent value. Duplicates are permitted and
//! passed through unmodified, in order.

use vstd::prelude::*;
use crate::model::KeyValuePair;
use crate::text::find_first;
use crate::text::scan_first;

verus! {

/// The name part of an entry: everything before the first `=`, or the whole
/// entry when it has none.
pub open spec fn env_name(s: Seq<char>) -> Seq<char> {
    match find_first(s, '=') {
        None => s,
        Some(i) => s.take(i),
    }
}

/// The value part of an entry: everything after the first `=`, absent when
/// the entry has none.
pub open spec fn env_value(s: Seq<char>) -> Option<Seq<char>> {
    match find_first(s, '=') {
        None => None,
        Some(i) => Some(s.skip(i + 1)),
    }
}

/// Whether a parsed pair is exactly the split of the entry `s`.
pub open spec fn pair_of_entry(kv: KeyValuePair, s: Seq<char>) -> bool {
    &&& kv.name matches Some(n) && n@ == env_name(s)
    &&& match env_value(s) {
        None => kv.value is None,
        Some(v) => kv.value matches Some(w) && w@ == v,
    }
}

/// Splits one entry on its first `=`.
pub fn split_env_entry(entry: &str) -> (kv: KeyValuePair)
    ensures
        pair_of_entry(kv, entry@),
{
    let n = entry.unicode_len();
    match scan_first(entry, '=') {
        None => KeyValuePair { name: Some(entry.to_owned()), value: None },
        Some(i) => {
            let name = entry.substring_char(0, i).to_owned();
            let value = entry.substring_char(i + 1, n).to_owned();
            proof {
                assert(name@ =~= env_name(entry@));
                assert(value@ =~= env_value(entry@)->0);
            }
            KeyValuePair { name: Some(name), value: Some(value) }
        },
    }
}

/// Parses an ordered list of `NAME=value` entries: one pair per entry, split
/// on the first `=` only, in the entries' order. An absent list stays absent.
pub fn parse_env(entries: &Option<Vec<String>>) -> (r: Option<Vec<KeyValuePair>>)
    ensures
        match entries {
            None => r is None,
            Some(es) => r matches Some(ps) && ps.len() == es.len() && (forall|i: int|
                0 <= i < es.len() ==> pair_of_entry(#[trigger] ps[i], es[i]@)),
        },
{
    match entries {
        None => None,
        Some(es) => {
            let mut ps: Vec<KeyValuePair> = Vec::new();
            let mut i: usize = 0;
            while i < es.len()
                invariant
                    0 <= i <= es.len(),
                    ps.len() == i,
                    forall|j: int| 0 <= j < i ==> pair_of_entry(#[trigger] ps@[j], es@[j]@),
                decreases es.len() - i,
            {
                ps.push(split_env_entry(es[i].as_str()));
                i = i + 1;
            }
            Some(ps)
        },
    }
}

} // verus!
