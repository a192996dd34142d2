//! A JSON document as it comes back in a response body, and the lookups the
//! pipeline makes in it.
use vstd::prelude::*;

use crate::context::hex_char;

verus! {

/// A decoded JSON value. Objects keep their entries in the order in which the
/// decoder produced them; numbers keep the decimal text the decoder printed.
pub enum Json {
    Null,
    Bool(bool),
    Number(String),
    Str(String),
    Array(Vec<Json>),
    Object(Vec<(String, Json)>),
}

/// How one character stands inside a JSON string literal: quote and
/// backslash behind a backslash, the five control characters that have one in
/// their short form, the other control characters as `\u00` and two
/// lower-case hexadecimal digits, everything else as itself.
pub open spec fn escape_char(c: char) -> Seq<char> {
    if c == '"' {
        seq!['\\', '"']
    } else if c == '\\' {
        seq!['\\', '\\']
    } else if c == '\x08' {
        seq!['\\', 'b']
    } else if c == '\t' {
        seq!['\\', 't']
    } else if c == '\n' {
        seq!['\\', 'n']
    } else if c == '\x0c' {
        seq!['\\', 'f']
    } else if c == '\r' {
        seq!['\\', 'r']
    } else if (c as u32) < 0x20 {
        seq!['\\', 'u', '0', '0', hex_char((c as u32 / 16) as nat), hex_char((c as u32 % 16) as nat)]
    } else {
        seq![c]
    }
}

/// The characters of `s`, each escaped.
pub open spec fn escaped(s: Seq<char>) -> Seq<char>
    decreases s.len(),
{
    if s.len() == 0 {
        Seq::empty()
    } else {
        escaped(s.drop_last()) + escape_char(s.last())
    }
}

/// The text of a JSON string literal holding `s`, as serde_json writes it.
pub open spec fn json_quoted(s: Seq<char>) -> Seq<char> {
    seq!['"'] + escaped(s) + seq!['"']
}

/// Relies on `serde_json::to_string` applied to a `str`: a quote, each
/// character escaped as `escape_char` says, and a quote. Serializing a `str`
/// into memory has no failing path, so the error arm is never taken.
#[verifier::external_body]
pub(crate) fn quote(s: &str) -> (r: String)
    ensures
        r@ == json_quoted(s@),
{
    match serde_json::to_string(s) {
        Ok(q) => q,
        Err(_) => String::new(),
    }
}

/// The value of the first entry named `key`.
pub open spec fn entry_value(entries: Seq<(String, Json)>, key: Seq<char>) -> Option<Json>
    decreases entries.len(),
{
    if entries.len() == 0 {
        None
    } else if entries[0].0@ == key {
        Some(entries[0].1)
    } else {
        entry_value(entries.drop_first(), key)
    }
}

/// The member `key` of `v`, when `v` is an object that has one.
pub open spec fn field_of(v: Json, key: Seq<char>) -> Option<Json> {
    match v {
        Json::Object(entries) => entry_value(entries@, key),
        _ => None,
    }
}

/// The text of a value that is a JSON string.
pub open spec fn text_of(v: Option<Json>) -> Option<Seq<char>> {
    match v {
        Some(Json::Str(s)) => Some(s@),
        _ => None,
    }
}

/// The member `key` of `v`, when it is present and a string.
pub open spec fn str_field(v: Json, key: Seq<char>) -> Option<Seq<char>> {
    text_of(field_of(v, key))
}

/// The name of the first entry of `v`, when `v` is a non-empty object.
pub open spec fn first_key(v: Json) -> Option<Seq<char>> {
    match v {
        Json::Object(entries) => if entries@.len() > 0 {
            Some(entries@[0].0@)
        } else {
            None
        },
        _ => None,
    }
}

/// The first element of `v`, when `v` is a non-empty array.
pub open spec fn first_item(v: Json) -> Option<Json> {
    match v {
        Json::Array(items) => if items@.len() > 0 {
            Some(items@[0])
        } else {
            None
        },
        _ => None,
    }
}

pub open spec fn is_object(v: Json) -> bool {
    v is Object
}

pub open spec fn is_array(v: Json) -> bool {
    v is Array
}

/// A view of an optional string.
pub open spec fn opt_text(o: Option<String>) -> Option<Seq<char>> {
    match o {
        Some(s) => Some(s@),
        None => None,
    }
}

impl Json {
    /// The member `key` of this value, when it is an object that has one.
    pub fn field(&self, key: &str) -> (r: Option<&Json>)
        ensures
            match r {
                Some(x) => field_of(*self, key@) == Some(*x),
                None => field_of(*self, key@) is None,
            },
    {
        match self {
            Json::Object(entries) => {
                let wanted = key.to_owned();
                let n = entries.len();
                let mut i: usize = 0;
                assert(entries@.subrange(0, n as int) =~= entries@);
                while i < n
                    invariant
                        n == entries@.len(),
                        i <= n,
                        wanted@ == key@,
                        field_of(*self, key@) == entry_value(entries@, key@),
                        entry_value(entries@, key@) == entry_value(
                            entries@.subrange(i as int, n as int),
                            key@,
                        ),
                    decreases n - i,
                {
                    assert(entries@.subrange(i as int, n as int).drop_first() =~= entries@.subrange(
                        i + 1,
                        n as int,
                    ));
                    assert(entries@.subrange(i as int, n as int)[0] == entries@[i as int]);
                    if entries[i].0 == wanted {
                        return Some(&entries[i].1);
                    }
                    i = i + 1;
                }
                None
            },
            _ => None,
        }
    }

    /// The member `key` of this value, when it is present and a string.
    pub fn get_str(&self, key: &str) -> (r: Option<String>)
        ensures
            opt_text(r) == str_field(*self, key@),
    {
        match self.field(key) {
            Some(Json::Str(s)) => Some(s.clone()),
            _ => None,
        }
    }

    /// The name of the first entry, when this is a non-empty object.
    pub fn first_key(&self) -> (r: Option<String>)
        ensures
            opt_text(r) == first_key(*self),
    {
        match self {
            Json::Object(entries) => if entries.len() > 0 {
                Some(entries[0].0.clone())
            } else {
                None
            },
            _ => None,
        }
    }

    /// The first element, when this is a non-empty array.
    pub fn first_item(&self) -> (r: Option<&Json>)
        ensures
            match r {
                Some(x) => first_item(*self) == Some(*x),
                None => first_item(*self) is None,
            },
    {
        match self {
            Json::Array(items) => if items.len() > 0 {
                Some(&items[0])
            } else {
                None
            },
            _ => None,
        }
    }

    pub fn is_object(&self) -> (r: bool)
        ensures
            r == is_object(*self),
    {
        match self {
            Json::Object(_) => true,
            _ => false,
        }
    }

    pub fn is_array(&self) -> (r: bool)
        ensures
            r == is_array(*self),
    {
        match self {
            Json::Array(_) => true,
            _ => false,
        }
    }
}

} // verus!
