//! A plain model of a JSON document.
//!
//! The delivery layer decides how a message is framed by looking at the
//! top-level fields of the document it arrives in, never at the payload's
//! content. Text is turned into this model (and back) at the transport edge;
//! the framing decisions made on it are verified here.

use vstd::prelude::*;

verus! {

/// A JSON number, split the way the framing logic needs to read it.
#[derive(Debug, Clone, PartialEq)]
pub enum JsonNumber {
    /// A non-negative integer that fits in `u64`.
    Unsigned(u64),
    /// A negative integer that fits in `i64`.
    Signed(i64),
    /// Any other number, kept as its decimal text.
    Fractional(String),
}

/// A JSON document.
#[derive(Debug)]
pub enum Json {
    Null,
    Bool(bool),
    Number(JsonNumber),
    Str(String),
    Array(Vec<Json>),
    /// Members in document order.
    Object(Vec<(String, Json)>),
}

/// The value of the first member named `key` at or after position `i`.
pub open spec fn member_from(members: Seq<(String, Json)>, key: Seq<char>, i: int) -> Option<Json>
    decreases members.len() - i,
{
    if i < 0 || i >= members.len() {
        None
    } else if members[i].0@ == key {
        Some(members[i].1)
    } else {
        member_from(members, key, i + 1)
    }
}

/// The value of the first member named `key`.
pub open spec fn member(members: Seq<(String, Json)>, key: Seq<char>) -> Option<Json> {
    member_from(members, key, 0)
}

/// The value of the top-level member named `key`, if `doc` is an object that
/// has one.
pub open spec fn field(doc: Json, key: Seq<char>) -> Option<Json> {
    match doc {
        Json::Object(members) => member(members@, key),
        _ => None,
    }
}

/// The integer held by `v`, if it is a non-negative integer.
pub open spec fn as_unsigned(v: Option<Json>) -> Option<u64> {
    match v {
        Some(Json::Number(JsonNumber::Unsigned(n))) => Some(n),
        _ => None,
    }
}

/// Position of the first member named `key`.
pub fn find_member(members: &Vec<(String, Json)>, key: &str) -> (r: Option<usize>)
    ensures
        match r {
            Some(i) => i < members@.len() && member(members@, key@) == Some(members@[i as int].1),
            None => member(members@, key@) is None,
        },
{
    let wanted = key.to_owned();
    let mut i: usize = 0;
    while i < members.len()
        invariant
            i <= members@.len(),
            wanted@ == key@,
            member_from(members@, key@, 0) == member_from(members@, key@, i as int),
        decreases members@.len() - i,
    {
        if members[i].0 == wanted {
            return Some(i);
        }
        i = i + 1;
    }
    None
}

/// The integer held by the member named `key`, if it is there and is a
/// non-negative integer.
pub fn unsigned_member(members: &Vec<(String, Json)>, key: &str) -> (r: Option<u64>)
    ensures
        r == as_unsigned(member(members@, key@)),
{
    match find_member(members, key) {
        Some(i) => match &members[i].1 {
            Json::Number(JsonNumber::Unsigned(n)) => Some(*n),
            _ => None,
        },
        None => None,
    }
}

} // verus!
