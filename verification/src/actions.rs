//! The fixed action vocabulary: eight named actions with small integer ids.
//!
//! Action id 0 is reserved and unused; ids 1 through 8 map to the wire-visible
//! names `get`, `set`, `call`, `delete`, `transform`, `clone`, `observe` and
//! `define`. The vocabulary is not extensible at run time.

use vstd::prelude::*;

verus! {

/// The id assigned to an action name, or `None` for a name outside the
/// vocabulary.
pub open spec fn spec_action_id(name: Seq<char>) -> Option<u8> {
    if name == "get"@ {
        Some(1u8)
    } else if name == "set"@ {
        Some(2u8)
    } else if name == "call"@ {
        Some(3u8)
    } else if name == "delete"@ {
        Some(4u8)
    } else if name == "transform"@ {
        Some(5u8)
    } else if name == "clone"@ {
        Some(6u8)
    } else if name == "observe"@ {
        Some(7u8)
    } else if name == "define"@ {
        Some(8u8)
    } else {
        None
    }
}

/// Every id the vocabulary assigns fits the four-bit action field of a
/// frame header, and is never the reserved id 0.
pub proof fn lemma_action_id_range(name: Seq<char>)
    ensures
        match spec_action_id(name) {
            Some(id) => 1 <= id <= 8,
            None => true,
        },
{
}

/// Compare two string slices by contents.
pub fn str_eq(a: &str, b: &str) -> (r: bool)
    ensures
        r == (a@ == b@),
{
    let sa: String = a.to_owned();
    let sb: String = b.to_owned();
    sa == sb
}

/// Resolve an action name to its id; names outside the vocabulary resolve to
/// `None`.
pub fn action_id_from_name(name: &str) -> (r: Option<u8>)
    ensures
        r == spec_action_id(name@),
{
    if str_eq(name, "get") {
        Some(1)
    } else if str_eq(name, "set") {
        Some(2)
    } else if str_eq(name, "call") {
        Some(3)
    } else if str_eq(name, "delete") {
        Some(4)
    } else if str_eq(name, "transform") {
        Some(5)
    } else if str_eq(name, "clone") {
        Some(6)
    } else if str_eq(name, "observe") {
        Some(7)
    } else if str_eq(name, "define") {
        Some(8)
    } else {
        None
    }
}

/// A subscription or emission key as the host hands it over: an action name,
/// a raw numeric id, or a value that is neither.
pub enum ActionKey {
    Name(String),
    Id(u8),
    Other,
}

} // verus!
