//! A JSON document as plain values, as the library reads and writes it.

use crate::text::{owned, str_eq};
use vstd::prelude::*;

verus! {

/// A JSON value.  Objects keep their members in order; `Number` holds the
/// value when it is a non-negative integer that fits `u64` and `None` for
/// any other number.
#[derive(Debug, PartialEq, Eq)]
pub enum Json {
    Null,
    Bool(bool),
    Number(Option<u64>),
    String(String),
    Array(Vec<Json>),
    Object(Vec<(String, Json)>),
}

/// The first member of `entries` named `key`.
pub open spec fn member(entries: Seq<(String, Json)>, key: Seq<char>) -> Option<Json>
    decreases entries.len(),
{
    if entries.len() == 0 {
        None
    } else if entries[0].0@ == key {
        Some(entries[0].1)
    } else {
        member(entries.drop_first(), key)
    }
}

/// `value[key]` for an object, `None` for anything else.
pub open spec fn json_get(value: Json, key: Seq<char>) -> Option<Json> {
    match value {
        Json::Object(entries) => member(entries@, key),
        _ => None,
    }
}

/// The text of a JSON string.
pub open spec fn json_str(value: Json) -> Option<Seq<char>> {
    match value {
        Json::String(s) => Some(s@),
        _ => None,
    }
}

/// `json_get` followed by `json_str`.
pub open spec fn json_str_at(value: Json, key: Seq<char>) -> Option<Seq<char>> {
    match json_get(value, key) {
        Some(v) => json_str(v),
        None => None,
    }
}

/// The value of a non-negative integer.
pub open spec fn json_u64(value: Json) -> Option<u64> {
    match value {
        Json::Number(n) => n,
        _ => None,
    }
}

/// The value of a boolean.
pub open spec fn json_bool(value: Json) -> Option<bool> {
    match value {
        Json::Bool(b) => Some(b),
        _ => None,
    }
}

/// The items of an array.
pub open spec fn json_array(value: Json) -> Option<Seq<Json>> {
    match value {
        Json::Array(items) => Some(items@),
        _ => None,
    }
}

/// `member` finds the first entry whose key matches.
pub proof fn lemma_member_at(e: Seq<(String, Json)>, k: Seq<char>, i: int)
    requires
        0 <= i < e.len(),
        e[i].0@ == k,
        forall|j: int| 0 <= j < i ==> e[j].0@ != k,
    ensures
        member(e, k) == Some(e[i].1),
    decreases i,
{
    if i > 0 {
        assert forall|j: int| 0 <= j < i - 1 implies e.drop_first()[j].0@ != k by {
            assert(e.drop_first()[j] == e[j + 1]);
        }
        lemma_member_at(e.drop_first(), k, i - 1);
    }
}

/// The keys of `e` are pairwise different.
pub open spec fn distinct_keys(e: Seq<(String, Json)>) -> bool {
    forall|i: int, j: int| 0 <= i < j < e.len() ==> e[i].0@ != e[j].0@
}

/// In an object with distinct keys, each member is found by its key.
pub proof fn lemma_distinct_members(e: Seq<(String, Json)>)
    requires
        distinct_keys(e),
    ensures
        forall|i: int| 0 <= i < e.len() ==> member(e, #[trigger] e[i].0@) == Some(e[i].1),
{
    assert forall|i: int| 0 <= i < e.len() implies member(e, #[trigger] e[i].0@) == Some(
        e[i].1,
    ) by {
        assert forall|j: int| 0 <= j < i implies e[j].0@ != e[i].0@ by {}
        lemma_member_at(e, e[i].0@, i);
    }
}

impl Json {
    /// The member named `key` of an object.
    pub fn get(&self, key: &str) -> (r: Option<&Json>)
        ensures
            match r {
                Some(v) => json_get(*self, key@) == Some(*v),
                None => json_get(*self, key@) is None,
            },
    {
        match self {
            Json::Object(entries) => {
                assert(json_get(*self, key@) == member(entries@, key@));
                let mut i: usize = 0;
                assert(entries@.skip(0) =~= entries@);
                while i < entries.len()
                    invariant
                        i <= entries@.len(),
                        json_get(*self, key@) == member(entries@, key@),
                        member(entries@, key@) == member(entries@.skip(i as int), key@),
                    decreases entries.len() - i,
                {
                    assert(entries@.skip(i as int).drop_first() =~= entries@.skip(i + 1));
                    assert(entries@.skip(i as int)[0] == entries@[i as int]);
                    let entry = &entries[i];
                    if str_eq(entry.0.as_str(), key) {
                        assert(member(entries@.skip(i as int), key@) == Some(entries@[i as int].1));
                        let found = &entry.1;
                        assert(*found == entries@[i as int].1);
                        return Some(found);
                    }
                    i = i + 1;
                }
                None
            },
            _ => None,
        }
    }

    /// The text of a string.
    pub fn as_str(&self) -> (r: Option<&str>)
        ensures
            match r {
                Some(s) => json_str(*self) == Some(s@),
                None => json_str(*self) is None,
            },
    {
        match self {
            Json::String(s) => Some(s.as_str()),
            _ => None,
        }
    }

    /// The value of a non-negative integer.
    pub fn as_u64(&self) -> (r: Option<u64>)
        ensures
            r == json_u64(*self),
    {
        match self {
            Json::Number(n) => *n,
            _ => None,
        }
    }

    /// The value of a boolean.
    pub fn as_bool(&self) -> (r: Option<bool>)
        ensures
            r == json_bool(*self),
    {
        match self {
            Json::Bool(b) => Some(*b),
            _ => None,
        }
    }

    /// The items of an array.
    pub fn as_array(&self) -> (r: Option<&Vec<Json>>)
        ensures
            match r {
                Some(items) => json_array(*self) == Some(items@),
                None => json_array(*self) is None,
            },
    {
        match self {
            Json::Array(items) => Some(items),
            _ => None,
        }
    }

    /// The text stored under `key`, as an owned string.
    pub fn str_at(&self, key: &str) -> (r: Option<String>)
        ensures
            match r {
                Some(s) => json_str_at(*self, key@) == Some(s@),
                None => json_str_at(*self, key@) is None,
            },
    {
        match self.get(key) {
            Some(v) => match v.as_str() {
                Some(s) => Some(owned(s)),
                None => None,
            },
            None => None,
        }
    }
}

/// A JSON string holding `s`.
pub fn jstr(s: &str) -> (r: Json)
    ensures
        r == Json::String(r->String_0) && r->String_0@ == s@,
{
    Json::String(owned(s))
}

/// A JSON member `key: value`.
pub fn jmember(key: &str, value: Json) -> (r: (String, Json))
    ensures
        r.0@ == key@,
        r.1 == value,
{
    (owned(key), value)
}

/// A JSON string holding `s`, or `null`.
pub fn jopt_str(s: Option<&str>) -> (r: Json)
    ensures
        match s {
            Some(t) => r == Json::String(r->String_0) && r->String_0@ == t@,
            None => r == Json::Null,
        },
{
    match s {
        Some(t) => jstr(t),
        None => Json::Null,
    }
}

/// The member `key` of `value`, moved out of it.
pub fn take_member(value: Json, key: &str) -> (r: Option<Json>)
    ensures
        r == json_get(value, key@),
{
    let ghost expected = json_get(value, key@);
    match value {
        Json::Object(mut entries) => {
            let ghost e = entries@;
            assert(expected == member(e, key@));
            let mut i: usize = 0;
            while i < entries.len()
                invariant
                    expected == json_get(value, key@),
                    expected == member(e, key@),
                    entries@ == e,
                    i <= e.len(),
                    forall|j: int| 0 <= j < i ==> e[j].0@ != key@,
                decreases entries.len() - i,
            {
                if str_eq(entries[i].0.as_str(), key) {
                    proof {
                        lemma_member_at(e, key@, i as int);
                    }
                    let pair = entries.remove(i);
                    assert(pair == e[i as int]);
                    assert(expected == Some(pair.1));
                    return Some(pair.1);
                }
                i = i + 1;
            }
            proof {
                lemma_member_absent(e, key@);
            }
            None
        },
        _ => None,
    }
}

/// `member` finds nothing when no key matches.
pub proof fn lemma_member_absent(e: Seq<(String, Json)>, k: Seq<char>)
    requires
        forall|j: int| 0 <= j < e.len() ==> e[j].0@ != k,
    ensures
        member(e, k) is None,
    decreases e.len(),
{
    if e.len() > 0 {
        assert forall|j: int| 0 <= j < e.drop_first().len() implies e.drop_first()[j].0@ != k by {
            assert(e.drop_first()[j] == e[j + 1]);
        }
        lemma_member_absent(e.drop_first(), k);
    }
}

} // verus!
