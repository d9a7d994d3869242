//! A plain model of JSON documents, as exchanged with the language and
//! media model services, with the lookups that the response handling needs.
//!
//! Objects keep their members in order; a lookup by key finds the first
//! member with that key, as a JSON map with unique keys does.

use vstd::prelude::*;
use crate::text::chars_of;

verus! {

/// A JSON number: a non-negative integer, a negative integer, or any other
/// number kept in its textual form.
#[derive(Debug, Clone)]
pub enum JsonNumber {
    PosInt(u64),
    NegInt(i64),
    Other(String),
}

/// A JSON value.
#[derive(Debug)]
pub enum JsonValue {
    Null,
    Bool(bool),
    Number(JsonNumber),
    Str(String),
    Array(Vec<JsonValue>),
    Object(Vec<(String, JsonValue)>),
}

/// The value of the first member named `key`, if any.
pub open spec fn entry_lookup(entries: Seq<(String, JsonValue)>, key: Seq<char>) -> Option<JsonValue>
    decreases entries.len(),
{
    if entries.len() == 0 {
        None
    } else if entries[0].0@ == key {
        Some(entries[0].1)
    } else {
        entry_lookup(entries.drop_first(), key)
    }
}

/// `v[key]` for an object `v`; `None` for a missing member or a non-object.
pub open spec fn json_get(v: JsonValue, key: Seq<char>) -> Option<JsonValue> {
    match v {
        JsonValue::Object(es) => entry_lookup(es@, key),
        _ => None,
    }
}

/// `v[i]` for an array `v`; `None` out of range or for a non-array.
pub open spec fn json_at(v: JsonValue, i: int) -> Option<JsonValue> {
    match v {
        JsonValue::Array(xs) => if 0 <= i < xs@.len() { Some(xs@[i]) } else { None },
        _ => None,
    }
}

/// The text of a string value.
pub open spec fn json_str(v: JsonValue) -> Option<Seq<char>> {
    match v {
        JsonValue::Str(s) => Some(s@),
        _ => None,
    }
}

/// The integer of a number that fits in `i64` (`Value::as_i64`).
pub open spec fn json_i64(v: JsonValue) -> Option<int> {
    match v {
        JsonValue::Number(JsonNumber::PosInt(n)) => if n <= i64::MAX { Some(n as int) } else { None },
        JsonValue::Number(JsonNumber::NegInt(n)) => Some(n as int),
        _ => None,
    }
}

/// Looks `key` up in an optional object.
pub open spec fn opt_get(v: Option<JsonValue>, key: Seq<char>) -> Option<JsonValue> {
    match v {
        Some(x) => json_get(x, key),
        None => None,
    }
}

/// Indexes an optional array.
pub open spec fn opt_at(v: Option<JsonValue>, i: int) -> Option<JsonValue> {
    match v {
        Some(x) => json_at(x, i),
        None => None,
    }
}

/// The text of an optional string value.
pub open spec fn opt_str(v: Option<JsonValue>) -> Option<Seq<char>> {
    match v {
        Some(x) => json_str(x),
        None => None,
    }
}

/// The sole member value of an object with exactly one member.
pub open spec fn json_single_member(v: JsonValue) -> Option<JsonValue> {
    match v {
        JsonValue::Object(es) => if es@.len() == 1 { Some(es@[0].1) } else { None },
        _ => None,
    }
}

/// Whether `v` is an object.
pub open spec fn json_is_object(v: JsonValue) -> bool {
    v is Object
}

/// Whether two strings hold the same characters.
pub fn str_equal(a: &str, b: &str) -> (r: bool)
    ensures
        r == (a@ == b@),
{
    let x = chars_of(a);
    let y = chars_of(b);
    if x.len() != y.len() {
        return false;
    }
    let mut i: usize = 0;
    while i < x.len()
        invariant
            i <= x.len(),
            x.len() == y.len(),
            x@ == a@,
            y@ == b@,
            forall|j: int| 0 <= j < i ==> x@[j] == y@[j],
        decreases x.len() - i,
    {
        if x[i] != y[i] {
            return false;
        }
        i = i + 1;
    }
    assert(x@ =~= y@);
    true
}

fn lookup_entries<'a>(es: &'a Vec<(String, JsonValue)>, key: &str) -> (r: Option<&'a JsonValue>)
    ensures
        match r {
            Some(x) => entry_lookup(es@, key@) == Some(*x),
            None => entry_lookup(es@, key@) is None,
        },
{
    let mut i: usize = 0;
    assert(es@.skip(0) =~= es@);
    while i < es.len()
        invariant
            i <= es.len(),
            entry_lookup(es@, key@) == entry_lookup(es@.skip(i as int), key@),
        decreases es.len() - i,
    {
        assert(es@.skip(i as int)[0] == es@[i as int]);
        assert(es@.skip(i as int).drop_first() =~= es@.skip(i + 1));
        if str_equal(es[i].0.as_str(), key) {
            return Some(&es[i].1);
        }
        i = i + 1;
    }
    assert(es@.skip(i as int).len() == 0);
    None
}

impl JsonValue {
    /// The member `key` of an object (`Value::get` with a string key).
    pub fn get(&self, key: &str) -> (r: Option<&JsonValue>)
        ensures
            match r {
                Some(x) => json_get(*self, key@) == Some(*x),
                None => json_get(*self, key@) is None,
            },
    {
        match self {
            JsonValue::Object(es) => lookup_entries(es, key),
            _ => None,
        }
    }

    /// The element `i` of an array (`Value::get` with an index).
    pub fn at(&self, i: usize) -> (r: Option<&JsonValue>)
        ensures
            match r {
                Some(x) => json_at(*self, i as int) == Some(*x),
                None => json_at(*self, i as int) is None,
            },
    {
        match self {
            JsonValue::Array(xs) => {
                if i < xs.len() {
                    Some(&xs[i])
                } else {
                    None
                }
            },
            _ => None,
        }
    }

    /// The text of a string value (`Value::as_str`).
    pub fn as_str(&self) -> (r: Option<&str>)
        ensures
            match r {
                Some(s) => json_str(*self) == Some(s@),
                None => json_str(*self) is None,
            },
    {
        match self {
            JsonValue::Str(s) => Some(s.as_str()),
            _ => None,
        }
    }

    /// The integer of a number that fits in `i64` (`Value::as_i64`).
    pub fn as_i64(&self) -> (r: Option<i64>)
        ensures
            match r {
                Some(n) => json_i64(*self) == Some(n as int),
                None => json_i64(*self) is None,
            },
    {
        match self {
            JsonValue::Number(JsonNumber::PosInt(n)) => {
                if *n <= 9223372036854775807u64 {
                    Some(*n as i64)
                } else {
                    None
                }
            },
            JsonValue::Number(JsonNumber::NegInt(n)) => Some(*n),
            _ => None,
        }
    }

    /// Whether the value is an object.
    pub fn is_object(&self) -> (b: bool)
        ensures
            b == json_is_object(*self),
    {
        match self {
            JsonValue::Object(_) => true,
            _ => false,
        }
    }

    /// The sole member value of an object with exactly one member.
    pub fn single_member(&self) -> (r: Option<&JsonValue>)
        ensures
            match r {
                Some(x) => json_single_member(*self) == Some(*x),
                None => json_single_member(*self) is None,
            },
    {
        match self {
            JsonValue::Object(es) => {
                if es.len() == 1 {
                    Some(&es[0].1)
                } else {
                    None
                }
            },
            _ => None,
        }
    }
}

/// `v` with one wrapping layer removed: an object whose only member is itself
/// an object stands for that inner object; anything else stands for itself.
pub open spec fn spec_unwrap_single(v: JsonValue) -> JsonValue {
    match json_single_member(v) {
        Some(inner) => if inner is Object { inner } else { v },
        None => v,
    }
}

/// Removes one wrapping layer (see [`spec_unwrap_single`]).
pub fn unwrap_single_object(v: JsonValue) -> (r: JsonValue)
    ensures
        r == spec_unwrap_single(v),
{
    let unwrap = match v.single_member() {
        Some(inner) => inner.is_object(),
        None => false,
    };
    if unwrap {
        match v {
            JsonValue::Object(mut es) => {
                let (_, inner) = es.pop().unwrap();
                inner
            },
            other => other,
        }
    } else {
        v
    }
}

} // verus!
