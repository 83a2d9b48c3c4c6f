use vstd::prelude::*;

use crate::foundation::text::{key_index, lemma_key_index_from, lookup, push_all, chars_of, string_of};

verus! {

/// A JSON value. A number is kept as what it reads as: an unsigned and a signed 64-bit
/// integer, when it is one.
#[derive(Debug)]
pub enum JsonValue {
    Null,
    Bool(bool),
    Number(Option<u64>, Option<i64>),
    String(String),
    Array(Vec<JsonValue>),
    Object(Vec<(String, JsonValue)>),
}

/// The member `key` of an object; nothing for other values.
pub open spec fn spec_member(v: JsonValue, key: Seq<char>) -> Option<JsonValue> {
    match v {
        JsonValue::Object(fields) => lookup(fields@, key),
        _ => None,
    }
}

/// The text of a string value.
pub open spec fn spec_as_str(v: JsonValue) -> Option<Seq<char>> {
    match v {
        JsonValue::String(s) => Some(s@),
        _ => None,
    }
}

/// The plain text of a chat component: a string as it is; an array, its items in order; an
/// object, its `text` (else its `translate`) followed by the text of its `extra`; anything
/// else, nothing.
pub open spec fn spec_text_of(v: JsonValue) -> Seq<char>
    decreases v, 0int,
{
    match v {
        JsonValue::String(s) => s@,
        JsonValue::Array(items) => spec_texts(items@, items@.len() as int),
        JsonValue::Object(fields) => {
            let head = match lookup(fields@, "text"@) {
                Some(t) => match t {
                    JsonValue::String(s) => s@,
                    _ => Seq::empty(),
                },
                None => match lookup(fields@, "translate"@) {
                    Some(JsonValue::String(s)) => s@,
                    _ => Seq::empty(),
                },
            };
            head + spec_extra_text(fields@, 0)
        },
        _ => Seq::empty(),
    }
}

/// The texts of the first `n` items, one after the other.
pub open spec fn spec_texts(items: Seq<JsonValue>, n: int) -> Seq<char>
    decreases items, n,
{
    if n <= 0 || n > items.len() {
        Seq::empty()
    } else {
        spec_texts(items, n - 1) + spec_text_of(items[n - 1])
    }
}

/// The text of the first `extra` member among the fields from the `i`-th on; nothing when
/// there is none.
pub open spec fn spec_extra_text(fields: Seq<(String, JsonValue)>, i: int) -> Seq<char>
    decreases fields, fields.len() - i,
{
    if i < 0 || i >= fields.len() {
        Seq::empty()
    } else if fields[i].0@ == "extra"@ {
        spec_text_of(fields[i].1)
    } else {
        spec_extra_text(fields, i + 1)
    }
}

fn text_chars(v: &JsonValue) -> (r: Vec<char>)
    ensures
        r@ == spec_text_of(*v),
    decreases v,
{
    match v {
        JsonValue::String(s) => chars_of(s.as_str()),
        JsonValue::Array(items) => {
            let mut out: Vec<char> = Vec::new();
            let mut i: usize = 0;
            while i < items.len()
                invariant
                    i <= items.len(),
                    *v == JsonValue::Array(*items),
                    out@ == spec_texts(items@, i as int),
                decreases items.len() - i,
            {
                proof {
                    assert(decreases_to!(*v => (*v)->Array_0));
                    assert(decreases_to!(*items => items@));
                    assert(decreases_to!(items@ => items@[i as int]));
                }
                let part = text_chars(&items[i]);
                push_all(&mut out, &part);
                i = i + 1;
            }
            out
        },
        JsonValue::Object(fields) => {
            proof {
                lemma_key_index_from(fields@, "text"@, 0);
                lemma_key_index_from(fields@, "translate"@, 0);
            }
            let mut out: Vec<char> = match key_index(fields, "text") {
                Some(k) => match &fields[k].1 {
                    JsonValue::String(s) => chars_of(s.as_str()),
                    _ => Vec::new(),
                },
                None => match key_index(fields, "translate") {
                    Some(k) => match &fields[k].1 {
                        JsonValue::String(s) => chars_of(s.as_str()),
                        _ => Vec::new(),
                    },
                    None => Vec::new(),
                },
            };
            let mut i: usize = 0;
            while i < fields.len()
                invariant
                    i <= fields.len(),
                    *v == JsonValue::Object(*fields),
                    out@ + spec_extra_text(fields@, 0) == spec_text_of(*v),
                    spec_extra_text(fields@, 0) == spec_extra_text(fields@, i as int),
                decreases fields.len() - i,
            {
                proof {
                    assert(decreases_to!(*v => (*v)->Object_0));
                    assert(decreases_to!(*fields => fields@));
                    assert(decreases_to!(fields@ => fields@[i as int]));
                    assert(decreases_to!(fields@[i as int] => fields@[i as int].1));
                }
                if crate::foundation::text::str_eq(fields[i].0.as_str(), "extra") {
                    let part = text_chars(&fields[i].1);
                    push_all(&mut out, &part);
                    return out;
                }
                i = i + 1;
            }
            out
        },
        _ => Vec::new(),
    }
}

/// The plain text of a chat component.
pub fn text_of(v: &JsonValue) -> (r: String)
    ensures
        r@ == spec_text_of(*v),
{
    string_of(&text_chars(v))
}

/// The unsigned integer a number reads as.
pub open spec fn spec_as_u64(v: JsonValue) -> Option<u64> {
    match v {
        JsonValue::Number(u, _) => u,
        _ => None,
    }
}

/// The signed integer a number reads as.
pub open spec fn spec_as_i64(v: JsonValue) -> Option<i64> {
    match v {
        JsonValue::Number(_, i) => i,
        _ => None,
    }
}

/// The member `key` of an object; nothing for other values.
pub fn member<'a>(v: &'a JsonValue, key: &str) -> (r: Option<&'a JsonValue>)
    ensures
        match r {
            Some(m) => spec_member(*v, key@) == Some(*m),
            None => spec_member(*v, key@) is None,
        },
{
    match v {
        JsonValue::Object(fields) => {
            proof {
                lemma_key_index_from(fields@, key@, 0);
            }
            match key_index(fields, key) {
                Some(k) => Some(&fields[k].1),
                None => None,
            }
        },
        _ => None,
    }
}

/// The text of a string value.
pub fn as_str(v: &JsonValue) -> (r: Option<&str>)
    ensures
        match r {
            Some(s) => spec_as_str(*v) == Some(s@),
            None => spec_as_str(*v) is None,
        },
{
    match v {
        JsonValue::String(s) => Some(s.as_str()),
        _ => None,
    }
}

/// The unsigned integer a number reads as.
pub fn as_u64(v: &JsonValue) -> (r: Option<u64>)
    ensures
        r == spec_as_u64(*v),
{
    match v {
        JsonValue::Number(u, _) => *u,
        _ => None,
    }
}

/// The signed integer a number reads as.
pub fn as_i64(v: &JsonValue) -> (r: Option<i64>)
    ensures
        r == spec_as_i64(*v),
{
    match v {
        JsonValue::Number(_, i) => *i,
        _ => None,
    }
}

} // verus!
