//! A JSON document as plain values, and the lookups the library makes in
//! provider replies and configuration files.

use vstd::prelude::*;

use crate::text::str_eq;

verus! {

/// A parsed JSON value. Numbers keep their value when it is a whole number
/// that fits in `u64` and are `Number(None)` otherwise. Object members are
/// listed once per key.
#[derive(Debug)]
pub enum Json {
    Null,
    Bool(bool),
    Number(Option<u64>),
    Str(String),
    Array(Vec<Json>),
    Object(Vec<(String, Json)>),
}

/// The value of the first member of `members` named `key`.
pub open spec fn lookup(members: Seq<(String, Json)>, key: Seq<char>) -> Option<Json>
    decreases members.len(),
{
    if members.len() == 0 {
        None
    } else if members[0].0@ == key {
        Some(members[0].1)
    } else {
        lookup(members.drop_first(), key)
    }
}

/// The member `key` of an object (`value.get(key)`); `None` for a missing
/// member or a value that is not an object.
pub open spec fn field(j: Option<Json>, key: Seq<char>) -> Option<Json> {
    match j {
        Some(Json::Object(members)) => lookup(members@, key),
        _ => None,
    }
}

/// Element `i` of an array; `None` out of range or for a non-array.
pub open spec fn element(j: Option<Json>, i: int) -> Option<Json> {
    match j {
        Some(Json::Array(items)) => if 0 <= i < items@.len() {
            Some(items@[i])
        } else {
            None
        },
        _ => None,
    }
}

/// The characters of a string value (`as_str`).
pub open spec fn str_value(j: Option<Json>) -> Option<Seq<char>> {
    match j {
        Some(Json::Str(s)) => Some(s@),
        _ => None,
    }
}

/// A boolean value (`as_bool`).
pub open spec fn bool_value(j: Option<Json>) -> Option<bool> {
    match j {
        Some(Json::Bool(b)) => Some(b),
        _ => None,
    }
}

/// A whole-number value (`as_u64`).
pub open spec fn u64_value(j: Option<Json>) -> Option<u64> {
    match j {
        Some(Json::Number(n)) => n,
        _ => None,
    }
}

/// The items of an array value (`as_array`).
pub open spec fn array_items(j: Option<Json>) -> Option<Seq<Json>> {
    match j {
        Some(Json::Array(items)) => Some(items@),
        _ => None,
    }
}

impl Json {
    /// The member `key` of this object, if it is an object that has one.
    pub fn get(&self, key: &str) -> (r: Option<&Json>)
        ensures
            r matches Some(x) ==> field(Some(*self), key@) == Some(*x),
            r is None ==> field(Some(*self), key@) is None,
    {
        match self {
            Json::Object(members) => {
                let mut i: usize = 0;
                proof {
                    assert(members@.skip(0) =~= members@);
                }
                let ghost whole = field(Some(*self), key@);
                assert(whole == lookup(members@, key@));
                while i < members.len()
                    invariant
                        i <= members@.len(),
                        whole == lookup(members@, key@),
                        whole == field(Some(*self), key@),
                        lookup(members@, key@) == lookup(members@.skip(i as int), key@),
                    decreases members@.len() - i,
                {
                    proof {
                        assert(members@.skip(i as int).drop_first() =~= members@.skip(i + 1));
                        assert(members@.skip(i as int)[0] == members@[i as int]);
                    }
                    if str_eq(members[i].0.as_str(), key) {
                        assert(lookup(members@.skip(i as int), key@) == Some(members@[i as int].1));
                        return Some(&members[i].1);
                    }
                    i = i + 1;
                }
                None
            },
            _ => None,
        }
    }

    /// Element `i` of this array, if it is an array that long.
    pub fn at(&self, i: usize) -> (r: Option<&Json>)
        ensures
            r matches Some(x) ==> element(Some(*self), i as int) == Some(*x),
            r is None ==> element(Some(*self), i as int) is None,
    {
        match self {
            Json::Array(items) => if i < items.len() {
                Some(&items[i])
            } else {
                None
            },
            _ => None,
        }
    }

    /// The string, if this is a string value.
    pub fn as_str(&self) -> (r: Option<&str>)
        ensures
            r matches Some(s) ==> str_value(Some(*self)) == Some(s@),
            r is None ==> str_value(Some(*self)) is None,
    {
        match self {
            Json::Str(s) => Some(s.as_str()),
            _ => None,
        }
    }

    /// The boolean, if this is a boolean value.
    pub fn as_bool(&self) -> (r: Option<bool>)
        ensures
            r == bool_value(Some(*self)),
    {
        match self {
            Json::Bool(b) => Some(*b),
            _ => None,
        }
    }

    /// The number, if this is a whole number that fits in `u64`.
    pub fn as_u64(&self) -> (r: Option<u64>)
        ensures
            r == u64_value(Some(*self)),
    {
        match self {
            Json::Number(n) => *n,
            _ => None,
        }
    }

    /// The items, if this is an array.
    pub fn as_array(&self) -> (r: Option<&Vec<Json>>)
        ensures
            r matches Some(v) ==> array_items(Some(*self)) == Some(v@),
            r is None ==> array_items(Some(*self)) is None,
    {
        match self {
            Json::Array(items) => Some(items),
            _ => None,
        }
    }
}

/// The string at `key` of `j`, if there is one.
pub fn str_field<'a>(j: &'a Json, key: &str) -> (r: Option<&'a str>)
    ensures
        r matches Some(s) ==> str_value(field(Some(*j), key@)) == Some(s@),
        r is None ==> str_value(field(Some(*j), key@)) is None,
{
    match j.get(key) {
        Some(v) => v.as_str(),
        None => None,
    }
}

} // verus!
