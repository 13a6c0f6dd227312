//! A JSON document as a tree of plain values, and typed reads of object fields.

use vstd::prelude::*;
use crate::text::{int_text, nat_text, int_to_string, nat_to_string};

verus! {

/// A parsed JSON value. Integers keep the category in which the parser read
/// them; any other number is kept as its decimal text, so no precision is lost.
#[derive(Debug)]
pub enum JsonValue {
    Null,
    Bool(bool),
    /// An integer read as signed (in practice, a negative one).
    Int(i64),
    /// A non-negative integer.
    UInt(u64),
    /// A number with a fraction or an exponent, as decimal text.
    Float(String),
    Str(String),
    Array(Vec<JsonValue>),
    /// Members in document order.
    Object(Vec<(String, JsonValue)>),
}

/// The value of the first member named `key`.
pub open spec fn lookup(members: Seq<(String, JsonValue)>, key: Seq<char>) -> Option<JsonValue>
    decreases members.len(),
{
    if members.len() == 0 {
        None
    } else if members[0].0@ == key {
        Some(members[0].1)
    } else {
        lookup(members.drop_first(), key)
    }
}

/// Finds the first member named `key`.
pub fn get_member<'a>(members: &'a Vec<(String, JsonValue)>, key: &str) -> (r: Option<&'a JsonValue>)
    ensures
        match r {
            Some(v) => lookup(members@, key@) == Some(*v),
            None => lookup(members@, key@) is None,
        },
{
    let wanted = key.to_owned();
    let n = members.len();
    let mut i: usize = 0;
    assert(members@.subrange(0, n as int) =~= members@);
    while i < n
        invariant
            n == members@.len(),
            i <= n,
            wanted@ == key@,
            lookup(members@, key@) == lookup(members@.subrange(i as int, n as int), key@),
        decreases n - i,
    {
        let ghost rest = members@.subrange(i as int, n as int);
        assert(rest[0] == members@[i as int]);
        if members[i].0 == wanted {
            return Some(&members[i].1);
        }
        assert(rest.drop_first() =~= members@.subrange(i + 1, n as int));
        i = i + 1;
    }
    None
}


/// The integer a value holds, if it is one that fits in `i64`.
pub open spec fn int_of(v: JsonValue) -> Option<i64> {
    match v {
        JsonValue::Int(i) => Some(i),
        JsonValue::UInt(u) => if u <= i64::MAX { Some(u as i64) } else { None },
        _ => None,
    }
}

pub open spec fn bool_of(v: JsonValue) -> Option<bool> {
    match v {
        JsonValue::Bool(b) => Some(b),
        _ => None,
    }
}

pub open spec fn str_of(v: JsonValue) -> Option<Seq<char>> {
    match v {
        JsonValue::Str(s) => Some(s@),
        _ => None,
    }
}

/// The decimal text of any number.
pub open spec fn number_text_of(v: JsonValue) -> Option<Seq<char>> {
    match v {
        JsonValue::Int(i) => Some(int_text(i as int)),
        JsonValue::UInt(u) => Some(nat_text(u as nat)),
        JsonValue::Float(t) => Some(t@),
        _ => None,
    }
}

/// A member that must be present: absent, or of another kind, reads as `None`.
pub open spec fn required<T>(found: Option<JsonValue>, read: spec_fn(JsonValue) -> Option<T>) -> Option<T> {
    match found {
        Some(v) => read(v),
        None => None,
    }
}

/// A member that may be absent or `null` (`Some(None)`); one of another kind
/// reads as `None`.
pub open spec fn optional<T>(found: Option<JsonValue>, read: spec_fn(JsonValue) -> Option<T>) -> Option<Option<T>> {
    match found {
        None => Some(None),
        Some(JsonValue::Null) => Some(None),
        Some(v) => match read(v) {
            Some(x) => Some(Some(x)),
            None => None,
        },
    }
}

pub open spec fn int_member(m: Seq<(String, JsonValue)>, key: Seq<char>) -> Option<i64> {
    required(lookup(m, key), |v: JsonValue| int_of(v))
}

pub open spec fn opt_int_member(m: Seq<(String, JsonValue)>, key: Seq<char>) -> Option<Option<i64>> {
    optional(lookup(m, key), |v: JsonValue| int_of(v))
}

pub open spec fn opt_bool_member(m: Seq<(String, JsonValue)>, key: Seq<char>) -> Option<Option<bool>> {
    optional(lookup(m, key), |v: JsonValue| bool_of(v))
}

pub open spec fn str_member(m: Seq<(String, JsonValue)>, key: Seq<char>) -> Option<Seq<char>> {
    required(lookup(m, key), |v: JsonValue| str_of(v))
}

pub open spec fn opt_str_member(m: Seq<(String, JsonValue)>, key: Seq<char>) -> Option<Option<Seq<char>>> {
    optional(lookup(m, key), |v: JsonValue| str_of(v))
}

pub open spec fn number_member(m: Seq<(String, JsonValue)>, key: Seq<char>) -> Option<Seq<char>> {
    required(lookup(m, key), |v: JsonValue| number_text_of(v))
}

pub open spec fn opt_number_member(m: Seq<(String, JsonValue)>, key: Seq<char>) -> Option<Option<Seq<char>>> {
    optional(lookup(m, key), |v: JsonValue| number_text_of(v))
}

/// The contents of an optional string.
pub open spec fn text_of(s: Option<String>) -> Option<Seq<char>> {
    match s {
        Some(t) => Some(t@),
        None => None,
    }
}

/// The contents of a read that may fail and may find nothing.
pub open spec fn opt_text_of(s: Option<Option<String>>) -> Option<Option<Seq<char>>> {
    match s {
        Some(t) => Some(text_of(t)),
        None => None,
    }
}

fn int_value(v: &JsonValue) -> (r: Option<i64>)
    ensures
        r == int_of(*v),
{
    match v {
        JsonValue::Int(i) => Some(*i),
        JsonValue::UInt(u) => if *u <= i64::MAX as u64 { Some(*u as i64) } else { None },
        _ => None,
    }
}

fn number_text_value(v: &JsonValue) -> (r: Option<String>)
    ensures
        text_of(r) == number_text_of(*v),
{
    match v {
        JsonValue::Int(i) => Some(int_to_string(*i)),
        JsonValue::UInt(u) => Some(nat_to_string(*u)),
        JsonValue::Float(t) => Some(t.clone()),
        _ => None,
    }
}

/// Reads a required integer member.
pub fn read_int(m: &Vec<(String, JsonValue)>, key: &str) -> (r: Option<i64>)
    ensures
        r == int_member(m@, key@),
{
    match get_member(m, key) {
        Some(v) => int_value(v),
        None => None,
    }
}

/// Reads an optional integer member.
pub fn read_opt_int(m: &Vec<(String, JsonValue)>, key: &str) -> (r: Option<Option<i64>>)
    ensures
        r == opt_int_member(m@, key@),
{
    match get_member(m, key) {
        None => Some(None),
        Some(JsonValue::Null) => Some(None),
        Some(v) => match int_value(v) {
            Some(i) => Some(Some(i)),
            None => None,
        },
    }
}

/// Reads an optional boolean member.
pub fn read_opt_bool(m: &Vec<(String, JsonValue)>, key: &str) -> (r: Option<Option<bool>>)
    ensures
        r == opt_bool_member(m@, key@),
{
    match get_member(m, key) {
        None => Some(None),
        Some(JsonValue::Null) => Some(None),
        Some(JsonValue::Bool(b)) => Some(Some(*b)),
        Some(_) => None,
    }
}

/// Reads a required string member.
pub fn read_str(m: &Vec<(String, JsonValue)>, key: &str) -> (r: Option<String>)
    ensures
        text_of(r) == str_member(m@, key@),
{
    match get_member(m, key) {
        Some(JsonValue::Str(s)) => Some(s.clone()),
        _ => None,
    }
}

/// Reads an optional string member.
pub fn read_opt_str(m: &Vec<(String, JsonValue)>, key: &str) -> (r: Option<Option<String>>)
    ensures
        opt_text_of(r) == opt_str_member(m@, key@),
{
    match get_member(m, key) {
        None => Some(None),
        Some(JsonValue::Null) => Some(None),
        Some(JsonValue::Str(s)) => Some(Some(s.clone())),
        Some(_) => None,
    }
}

/// Reads a required number member as decimal text.
pub fn read_number(m: &Vec<(String, JsonValue)>, key: &str) -> (r: Option<String>)
    ensures
        text_of(r) == number_member(m@, key@),
{
    match get_member(m, key) {
        Some(v) => number_text_value(v),
        None => None,
    }
}

/// Reads an optional number member as decimal text.
pub fn read_opt_number(m: &Vec<(String, JsonValue)>, key: &str) -> (r: Option<Option<String>>)
    ensures
        opt_text_of(r) == opt_number_member(m@, key@),
{
    match get_member(m, key) {
        None => Some(None),
        Some(JsonValue::Null) => Some(None),
        Some(v) => match number_text_value(v) {
            Some(t) => Some(Some(t)),
            None => None,
        },
    }
}


/// Members under pairwise distinct keys.
pub open spec fn keys_unique(m: Seq<(String, JsonValue)>) -> bool {
    forall|i: int, j: int| 0 <= i < j < m.len() ==> (#[trigger] m[i]).0@ != (#[trigger] m[j]).0@
}

/// Under distinct keys, looking up any member's key finds that member.
pub proof fn lemma_lookup_unique(m: Seq<(String, JsonValue)>)
    requires
        keys_unique(m),
    ensures
        forall|i: int| 0 <= i < m.len() ==> lookup(m, (#[trigger] m[i]).0@) == Some(m[i].1),
    decreases m.len(),
{
    if m.len() > 0 {
        let rest = m.drop_first();
        assert forall|i: int, j: int| 0 <= i < j < rest.len() implies (#[trigger] rest[i]).0@ != (#[trigger] rest[j]).0@ by {
            assert(rest[i] == m[i + 1] && rest[j] == m[j + 1]);
        }
        lemma_lookup_unique(rest);
        assert forall|i: int| 0 <= i < m.len() implies lookup(m, (#[trigger] m[i]).0@) == Some(m[i].1) by {
            if i > 0 {
                assert(rest[i - 1] == m[i]);
                assert(m[0].0@ != m[i].0@);
            }
        }
    }
}

/// An optional integer as JSON: `null` when absent.
pub fn opt_int_json(o: Option<i64>) -> (v: JsonValue)
    ensures
        match o {
            Some(i) => v == JsonValue::Int(i),
            None => v == JsonValue::Null,
        },
{
    match o {
        Some(i) => JsonValue::Int(i),
        None => JsonValue::Null,
    }
}

/// An optional boolean as JSON: `null` when absent.
pub fn opt_bool_json(o: Option<bool>) -> (v: JsonValue)
    ensures
        match o {
            Some(b) => v == JsonValue::Bool(b),
            None => v == JsonValue::Null,
        },
{
    match o {
        Some(b) => JsonValue::Bool(b),
        None => JsonValue::Null,
    }
}

/// A string as JSON.
pub fn str_json(s: &String) -> (v: JsonValue)
    ensures
        v is Str && str_of(v) == Some(s@),
{
    JsonValue::Str(s.clone())
}

/// An optional string as JSON: `null` when absent.
pub fn opt_str_json(o: &Option<String>) -> (v: JsonValue)
    ensures
        match o {
            Some(s) => v is Str && str_of(v) == Some(s@),
            None => v == JsonValue::Null,
        },
{
    match o {
        Some(s) => JsonValue::Str(s.clone()),
        None => JsonValue::Null,
    }
}

/// Decimal text as a JSON number.
pub fn number_json(t: &String) -> (v: JsonValue)
    ensures
        v is Float && number_text_of(v) == Some(t@),
{
    JsonValue::Float(t.clone())
}

/// Optional decimal text as a JSON number: `null` when absent.
pub fn opt_number_json(o: &Option<String>) -> (v: JsonValue)
    ensures
        match o {
            Some(t) => v is Float && number_text_of(v) == Some(t@),
            None => v == JsonValue::Null,
        },
{
    match o {
        Some(t) => JsonValue::Float(t.clone()),
        None => JsonValue::Null,
    }
}

/// A member: key and value.
pub fn member(key: &str, value: JsonValue) -> (r: (String, JsonValue))
    ensures
        r.0@ == key@,
        r.1 == value,
{
    (key.to_owned(), value)
}

} // verus!
