//! The shape that a corpus of rulesets must have before it is loaded.
//!
//! A corpus is a list of objects. Each has a `name` (text), a `target` (list
//! of texts) and a `rule` (list of objects with texts `from` and `to`). It
//! may have an `exclusion` (list of texts, none of them empty), a
//! `securecookie` (list of objects with texts `host` and `name`), a
//! `platform` (text) and a `default_off` (text). Other members are ignored.
//!
//! An empty exclusion pattern would exclude every URL, and a store cannot
//! tell a list that holds only that pattern from an empty list. A corpus
//! with such a pattern is refused.

use crate::json::Json;
use vstd::prelude::*;
use vstd::string::StringExecFns;

verus! {

/// Why a corpus was refused.
#[derive(Clone, Copy, Debug, PartialEq, Eq, Structural)]
pub enum CorpusError {
    /// The text is not JSON.
    NotJson,
    /// The text is JSON, but not a list of rulesets of the expected shape.
    Malformed,
}

/// The first member named `key` at or after position `from`.
pub open spec fn member_from(members: Seq<(String, Json)>, key: Seq<char>, from: int) -> Option<Json>
    decreases members.len() - from,
{
    if from < 0 || from >= members.len() {
        None
    } else if members[from].0@ == key {
        Some(members[from].1)
    } else {
        member_from(members, key, from + 1)
    }
}

/// The member of an object named `key`; nothing for a value that is no
/// object or has no such member.
pub open spec fn member(value: Json, key: Seq<char>) -> Option<Json> {
    match value {
        Json::Object(members) => member_from(members@, key, 0),
        _ => None,
    }
}

/// Whether a member is there and is a text.
pub open spec fn is_text(value: Option<Json>) -> bool {
    match value {
        Some(Json::Text(_)) => true,
        _ => false,
    }
}

/// Whether every value of a sequence is a text.
pub open spec fn all_text(items: Seq<Json>) -> bool {
    forall|i: int| 0 <= i < items.len() ==> is_text(Some(#[trigger] items[i]))
}

/// Whether a value is a text that is not empty.
pub open spec fn is_pattern(value: Json) -> bool {
    match value {
        Json::Text(t) => t@.len() > 0,
        _ => false,
    }
}

/// Whether every value of a sequence is a text that is not empty.
pub open spec fn all_patterns(items: Seq<Json>) -> bool {
    forall|i: int| 0 <= i < items.len() ==> is_pattern(#[trigger] items[i])
}

/// Whether a member is there and is a list of texts, none of them empty.
pub open spec fn is_pattern_list(value: Option<Json>) -> bool {
    match value {
        Some(Json::List(items)) => all_patterns(items@),
        _ => false,
    }
}

/// Whether a member is there and is a list of texts.
pub open spec fn is_text_list(value: Option<Json>) -> bool {
    match value {
        Some(Json::List(items)) => all_text(items@),
        _ => false,
    }
}

/// Whether a member is there and is a list of objects that each have the
/// two named texts.
pub open spec fn is_pair_list(value: Option<Json>, first: Seq<char>, second: Seq<char>) -> bool {
    match value {
        Some(Json::List(items)) => all_pairs(items@, first, second),
        _ => false,
    }
}

/// Whether every value of a sequence is an object that has the two named
/// texts.
pub open spec fn all_pairs(items: Seq<Json>, first: Seq<char>, second: Seq<char>) -> bool {
    forall|i: int|
        0 <= i < items.len() ==> is_text(member(#[trigger] items[i], first)) && is_text(
            member(items[i], second),
        )
}

/// Whether every value of a sequence is a well-formed ruleset.
pub open spec fn all_well_formed(entries: Seq<Json>) -> bool {
    forall|i: int| 0 <= i < entries.len() ==> well_formed_entry(#[trigger] entries[i])
}

/// Whether a value is a ruleset of the expected shape.
pub open spec fn well_formed_entry(entry: Json) -> bool {
    &&& entry is Object
    &&& is_text(member(entry, "name"@))
    &&& is_text_list(member(entry, "target"@))
    &&& is_pair_list(member(entry, "rule"@), "from"@, "to"@)
    &&& (member(entry, "exclusion"@) is None || is_pattern_list(member(entry, "exclusion"@)))
    &&& (member(entry, "securecookie"@) is None || is_pair_list(
        member(entry, "securecookie"@),
        "host"@,
        "name"@,
    ))
    &&& (member(entry, "platform"@) is None || is_text(member(entry, "platform"@)))
    &&& (member(entry, "default_off"@) is None || is_text(member(entry, "default_off"@)))
}

/// Whether a value is a corpus: a list of well-formed rulesets.
pub open spec fn well_formed_corpus(corpus: Json) -> bool {
    match corpus {
        Json::List(entries) => all_well_formed(entries@),
        _ => false,
    }
}

/// Looks up a member of an object by name.
pub fn get_member<'a>(value: &'a Json, key: &str) -> (r: Option<&'a Json>)
    ensures
        r.is_some() == member(*value, key@).is_some(),
        r matches Some(found) ==> Some(*found) == member(*value, key@),
{
    match value {
        Json::Object(members) => {
            let wanted = String::from_str(key);
            let mut i: usize = 0;
            while i < members.len()
                invariant
                    i <= members.len(),
                    wanted@ == key@,
                    member(*value, key@) == member_from(members@, key@, 0),
                    member_from(members@, key@, 0) == member_from(members@, key@, i as int),
                decreases members.len() - i,
            {
                if members[i].0 == wanted {
                    return Some(&members[i].1);
                }
                i += 1;
            }
            None
        },
        _ => None,
    }
}

/// Tests for a member that is a text.
pub fn has_text(value: &Json, key: &str) -> (r: bool)
    ensures
        r == is_text(member(*value, key@)),
{
    match get_member(value, key) {
        Some(Json::Text(_)) => true,
        _ => false,
    }
}

/// Tests for a member that is a list of texts.
pub fn has_text_list(value: &Json, key: &str) -> (r: bool)
    ensures
        r == is_text_list(member(*value, key@)),
{
    match get_member(value, key) {
        Some(Json::List(items)) => {
            let mut i: usize = 0;
            while i < items.len()
                invariant
                    i <= items.len(),
                    member(*value, key@) == Some(Json::List(*items)),
                    forall|j: int| 0 <= j < i ==> is_text(Some(#[trigger] items@[j])),
                decreases items.len() - i,
            {
                match &items[i] {
                    Json::Text(_) => {},
                    _ => {
                        assert(!is_text(Some(items@[i as int])));
                        return false;
                    },
                }
                i += 1;
            }
            true
        },
        _ => false,
    }
}

/// Tests for a member that is a list of texts, none of them empty.
pub fn has_pattern_list(value: &Json, key: &str) -> (r: bool)
    ensures
        r == is_pattern_list(member(*value, key@)),
{
    match get_member(value, key) {
        Some(Json::List(items)) => {
            let mut i: usize = 0;
            while i < items.len()
                invariant
                    i <= items.len(),
                    member(*value, key@) == Some(Json::List(*items)),
                    forall|j: int| 0 <= j < i ==> is_pattern(#[trigger] items@[j]),
                decreases items.len() - i,
            {
                let full = match &items[i] {
                    Json::Text(t) => !t.as_str().is_empty(),
                    _ => false,
                };
                if !full {
                    assert(!is_pattern(items@[i as int]));
                    return false;
                }
                i += 1;
            }
            true
        },
        _ => false,
    }
}

/// Tests for a member that is a list of objects with two named texts each.
pub fn has_pair_list(value: &Json, key: &str, first: &str, second: &str) -> (r: bool)
    ensures
        r == is_pair_list(member(*value, key@), first@, second@),
{
    match get_member(value, key) {
        Some(Json::List(items)) => {
            let mut i: usize = 0;
            while i < items.len()
                invariant
                    i <= items.len(),
                    member(*value, key@) == Some(Json::List(*items)),
                    forall|j: int|
                        0 <= j < i ==> is_text(member(#[trigger] items@[j], first@)) && is_text(
                            member(items@[j], second@),
                        ),
                decreases items.len() - i,
            {
                if !has_text(&items[i], first) || !has_text(&items[i], second) {
                    assert(!(is_text(member(items@[i as int], first@)) && is_text(
                        member(items@[i as int], second@),
                    )));
                    return false;
                }
                i += 1;
            }
            true
        },
        _ => false,
    }
}

/// Tests whether a member is absent.
pub fn lacks(value: &Json, key: &str) -> (r: bool)
    ensures
        r == (member(*value, key@) is None),
{
    get_member(value, key).is_none()
}

/// Tests a ruleset for the expected shape.
pub fn check_entry(entry: &Json) -> (r: bool)
    ensures
        r == well_formed_entry(*entry),
{
    match entry {
        Json::Object(_) => {},
        _ => {
            return false;
        },
    }
    has_text(entry, "name") && has_text_list(entry, "target") && has_pair_list(
        entry,
        "rule",
        "from",
        "to",
    ) && (lacks(entry, "exclusion") || has_pattern_list(entry, "exclusion")) && (lacks(
        entry,
        "securecookie",
    ) || has_pair_list(entry, "securecookie", "host", "name")) && (lacks(entry, "platform")
        || has_text(entry, "platform")) && (lacks(entry, "default_off") || has_text(
        entry,
        "default_off",
    ))
}

/// Tests a corpus for the expected shape.
pub fn check_corpus(corpus: &Json) -> (r: bool)
    ensures
        r == well_formed_corpus(*corpus),
{
    match corpus {
        Json::List(entries) => {
            let mut i: usize = 0;
            while i < entries.len()
                invariant
                    i <= entries.len(),
                    *corpus == Json::List(*entries),
                    forall|j: int| 0 <= j < i ==> well_formed_entry(#[trigger] entries@[j]),
                decreases entries.len() - i,
            {
                if !check_entry(&entries[i]) {
                    assert(!well_formed_entry(entries@[i as int]));
                    return false;
                }
                i += 1;
            }
            true
        },
        _ => false,
    }
}

} // verus!
