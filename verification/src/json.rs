//! A JSON document as the handlers read it: objects, arrays, strings and
//! integers. A fractional number is kept only as the fact that it is one,
//! since no reading below takes its value.

use vstd::prelude::*;
use crate::text::str_eq;

verus! {

/// A JSON number: a non-negative integer, a negative integer, or a number
/// with a fraction or exponent.
#[derive(Debug, Clone, Copy, PartialEq, Eq)]
pub enum JsonNumber {
    PosInt(u64),
    NegInt(i64),
    Float,
}

/// A JSON value. Object members keep their document order; keys are unique.
#[derive(Debug)]
pub enum Json {
    Null,
    Bool(bool),
    Number(JsonNumber),
    Str(String),
    Array(Vec<Json>),
    Object(Vec<(String, Json)>),
}

/// The value stored under `key` among `members`, the first one if repeated.
pub open spec fn lookup(members: Seq<(String, Json)>, key: Seq<char>) -> Option<Json>
    decreases members.len(),
{
    if members.len() == 0 {
        None
    } else if members[0].0@ == key {
        Some(members[0].1)
    } else {
        lookup(members.drop_first(), key)
    }
}

/// `Value::get(key)`: the member of an object, `None` for any other value.
pub open spec fn get_spec(v: Json, key: Seq<char>) -> Option<Json> {
    match v {
        Json::Object(m) => lookup(m@, key),
        _ => None,
    }
}

/// `Value::get(index)` on an array.
pub open spec fn at_spec(v: Json, index: int) -> Option<Json> {
    match v {
        Json::Array(a) => if 0 <= index < a@.len() { Some(a@[index]) } else { None },
        _ => None,
    }
}

/// `Value::as_i64`.
pub open spec fn as_i64_spec(v: Json) -> Option<i64> {
    match v {
        Json::Number(JsonNumber::PosInt(n)) => if n <= i64::MAX { Some(n as i64) } else { None },
        Json::Number(JsonNumber::NegInt(n)) => Some(n),
        _ => None,
    }
}

/// `Value::as_u64`.
pub open spec fn as_u64_spec(v: Json) -> Option<u64> {
    match v {
        Json::Number(JsonNumber::PosInt(n)) => Some(n),
        _ => None,
    }
}

/// `Value::as_str`.
pub open spec fn as_str_spec(v: Json) -> Option<Seq<char>> {
    match v {
        Json::Str(s) => Some(s@),
        _ => None,
    }
}

/// Lifts `get_spec` over an optional value.
pub open spec fn oget(v: Option<Json>, key: Seq<char>) -> Option<Json> {
    match v {
        Some(x) => get_spec(x, key),
        None => None,
    }
}

/// Lifts `as_i64_spec` over an optional value.
pub open spec fn oi64(v: Option<Json>) -> Option<i64> {
    match v {
        Some(x) => as_i64_spec(x),
        None => None,
    }
}

/// Lifts `as_u64_spec` over an optional value.
pub open spec fn ou64(v: Option<Json>) -> Option<u64> {
    match v {
        Some(x) => as_u64_spec(x),
        None => None,
    }
}

/// Lifts `as_str_spec` over an optional value.
pub open spec fn ostr(v: Option<Json>) -> Option<Seq<char>> {
    match v {
        Some(x) => as_str_spec(x),
        None => None,
    }
}

impl Json {
    /// The member `key` of an object.
    pub fn get(&self, key: &str) -> (r: Option<&Json>)
        ensures
            match get_spec(*self, key@) {
                Some(x) => r matches Some(y) && *y == x,
                None => r is None,
            },
    {
        match self {
            Json::Object(members) => {
                let n = members.len();
                let mut i: usize = 0;
                assert(members@.subrange(0, n as int) =~= members@);
                while i < n
                    invariant
                        n == members@.len(),
                        0 <= i <= n,
                        get_spec(*self, key@) == lookup(members@, key@),
                        lookup(members@, key@) == lookup(members@.subrange(i as int, n as int), key@),
                    decreases n - i,
                {
                    let ghost rest = members@.subrange(i as int, n as int);
                    assert(rest.drop_first() =~= members@.subrange(i + 1, n as int));
                    assert(rest[0] == members@[i as int]);
                    let entry = &members[i];
                    if str_eq(entry.0.as_str(), key) {
                        assert(rest.len() > 0 && rest[0].0@ == key@);
                        assert(lookup(rest, key@) == Some(rest[0].1));
                        assert(entry.1 == rest[0].1);
                        return Some(&entry.1);
                    }
                    i += 1;
                }
                None
            }
            _ => None,
        }
    }

    /// The element `index` of an array.
    pub fn at(&self, index: usize) -> (r: Option<&Json>)
        ensures
            match at_spec(*self, index as int) {
                Some(x) => r matches Some(y) && *y == x,
                None => r is None,
            },
    {
        match self {
            Json::Array(items) => {
                if index < items.len() {
                    Some(&items[index])
                } else {
                    None
                }
            }
            _ => None,
        }
    }

    /// `Value::as_i64`.
    pub fn as_i64(&self) -> (r: Option<i64>)
        ensures
            r == as_i64_spec(*self),
    {
        match self {
            Json::Number(JsonNumber::PosInt(n)) => {
                if *n <= 9223372036854775807u64 {
                    Some(*n as i64)
                } else {
                    None
                }
            }
            Json::Number(JsonNumber::NegInt(n)) => Some(*n),
            _ => None,
        }
    }

    /// `Value::as_u64`.
    pub fn as_u64(&self) -> (r: Option<u64>)
        ensures
            r == as_u64_spec(*self),
    {
        match self {
            Json::Number(JsonNumber::PosInt(n)) => Some(*n),
            _ => None,
        }
    }

    /// `Value::as_str`.
    pub fn as_str(&self) -> (r: Option<&str>)
        ensures
            match as_str_spec(*self) {
                Some(t) => r matches Some(s) && s@ == t,
                None => r is None,
            },
    {
        match self {
            Json::Str(s) => Some(s.as_str()),
            _ => None,
        }
    }
}

} // verus!
