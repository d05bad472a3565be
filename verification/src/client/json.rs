//! JSON values as the frame decoder reads them, and the lookups it makes:
//! a field by the first of several names, and a field read as text, flag,
//! number or list, with the lenient conversions the protocol allows.
use vstd::prelude::*;
use crate::text::{parse_i64_text, same_text, spec_parse_i64};

verus! {

broadcast use vstd::string::group_string_axioms;

/// A JSON number, as what it reads as a signed and as an unsigned 64-bit
/// integer (`None` where it is not one).
#[derive(Debug, Clone, Copy, PartialEq, Eq)]
pub struct JsonNumber {
    pub as_i64: Option<i64>,
    pub as_u64: Option<u64>,
}

/// A JSON value. An object keeps its members in order; their names are
/// distinct.
#[derive(Debug)]
pub enum JsonValue {
    Null,
    Bool(bool),
    Number(JsonNumber),
    String(String),
    Array(Vec<JsonValue>),
    Object(Vec<(String, JsonValue)>),
}

/// The names of a list of keys.
pub open spec fn key_names(keys: Seq<&str>) -> Seq<Seq<char>> {
    keys.map_values(|k: &str| k@)
}

/// The member of an object with the given name.
pub open spec fn spec_lookup(obj: Seq<(String, JsonValue)>, key: Seq<char>) -> Option<JsonValue>
    decreases obj.len(),
{
    if obj.len() == 0 {
        None
    } else if obj[0].0@ == key {
        Some(obj[0].1)
    } else {
        spec_lookup(obj.drop_first(), key)
    }
}

/// The member under the first of the names that the object has.
pub open spec fn spec_get_value(obj: Seq<(String, JsonValue)>, keys: Seq<Seq<char>>) -> Option<
    JsonValue,
>
    decreases keys.len(),
{
    if keys.len() == 0 {
        None
    } else {
        match spec_lookup(obj, keys[0]) {
            Some(v) => Some(v),
            None => spec_get_value(obj, keys.drop_first()),
        }
    }
}

/// The text of a value that is a string.
pub open spec fn spec_as_str(v: Option<JsonValue>) -> Option<Seq<char>> {
    match v {
        Some(JsonValue::String(s)) => Some(s@),
        _ => None,
    }
}

/// A member read as text.
pub open spec fn spec_get_string(obj: Seq<(String, JsonValue)>, keys: Seq<Seq<char>>) -> Option<
    Seq<char>,
> {
    spec_as_str(spec_get_value(obj, keys))
}

/// A member read as a flag: a boolean, a number that is an `i64` (true
/// when not zero), or the text `true` or `false`.
pub open spec fn spec_get_bool(obj: Seq<(String, JsonValue)>, keys: Seq<Seq<char>>) -> Option<
    bool,
> {
    match spec_get_value(obj, keys) {
        Some(JsonValue::Bool(b)) => Some(b),
        Some(JsonValue::Number(n)) => match n.as_i64 {
            Some(x) => Some(x != 0),
            None => None,
        },
        Some(JsonValue::String(s)) => if s@ == "true"@ {
            Some(true)
        } else if s@ == "false"@ {
            Some(false)
        } else {
            None
        },
        _ => None,
    }
}

/// A member read as an `i64`: a number that fits, or text that parses as
/// one.
pub open spec fn spec_get_i64(obj: Seq<(String, JsonValue)>, keys: Seq<Seq<char>>) -> Option<i64> {
    match spec_get_value(obj, keys) {
        Some(JsonValue::Number(n)) => match n.as_i64 {
            Some(x) => Some(x),
            None => match n.as_u64 {
                Some(u) => if u <= i64::MAX {
                    Some(u as i64)
                } else {
                    None
                },
                None => None,
            },
        },
        Some(JsonValue::String(s)) => spec_parse_i64(s@),
        _ => None,
    }
}

/// A member read as an `i32`: as an `i64` that fits.
pub open spec fn spec_get_i32(obj: Seq<(String, JsonValue)>, keys: Seq<Seq<char>>) -> Option<i32> {
    match spec_get_i64(obj, keys) {
        Some(x) => if i32::MIN <= x <= i32::MAX {
            Some(x as i32)
        } else {
            None
        },
        None => None,
    }
}

/// The items of a member that is an array; none otherwise.
pub open spec fn spec_get_array(obj: Seq<(String, JsonValue)>, keys: Seq<Seq<char>>) -> Seq<
    JsonValue,
> {
    match spec_get_value(obj, keys) {
        Some(JsonValue::Array(items)) => items@,
        _ => Seq::empty(),
    }
}

/// The object under the first of the names that holds an object, or the
/// root itself.
pub open spec fn spec_payload_or_root(root: Seq<(String, JsonValue)>, keys: Seq<Seq<char>>) -> Seq<
    (String, JsonValue),
>
    decreases keys.len(),
{
    if keys.len() == 0 {
        root
    } else {
        match spec_lookup(root, keys[0]) {
            Some(JsonValue::Object(o)) => o@,
            _ => spec_payload_or_root(root, keys.drop_first()),
        }
    }
}

/// The texts among some values, in order.
pub open spec fn spec_texts(items: Seq<JsonValue>) -> Seq<Seq<char>>
    decreases items.len(),
{
    if items.len() == 0 {
        Seq::empty()
    } else {
        let rest = spec_texts(items.drop_last());
        match items.last() {
            JsonValue::String(s) => rest.push(s@),
            _ => rest,
        }
    }
}

/// The member of an object with the given name.
pub fn lookup<'a>(obj: &'a Vec<(String, JsonValue)>, key: &str) -> (r: Option<&'a JsonValue>)
    ensures
        (match r {
            Some(v) => spec_lookup(obj@, key@) == Some(*v),
            None => spec_lookup(obj@, key@) is None,
        }),
{
    let mut i: usize = 0;
    assert(obj@.skip(0) =~= obj@);
    while i < obj.len()
        invariant
            i <= obj@.len(),
            spec_lookup(obj@, key@) == spec_lookup(obj@.skip(i as int), key@),
        decreases obj@.len() - i,
    {
        assert(obj@.skip(i as int).drop_first() =~= obj@.skip(i + 1));
        if same_text(obj[i].0.as_str(), key) {
            return Some(&obj[i].1);
        }
        i = i + 1;
    }
    None
}

/// The member under the first of the names that the object has.
pub fn get_value<'a>(obj: &'a Vec<(String, JsonValue)>, keys: &[&str]) -> (r: Option<&'a JsonValue>)
    ensures
        (match r {
            Some(v) => spec_get_value(obj@, key_names(keys@)) == Some(*v),
            None => spec_get_value(obj@, key_names(keys@)) is None,
        }),
{
    let mut i: usize = 0;
    assert(key_names(keys@).skip(0) =~= key_names(keys@));
    while i < keys.len()
        invariant
            i <= keys@.len(),
            spec_get_value(obj@, key_names(keys@)) == spec_get_value(
                obj@,
                key_names(keys@).skip(i as int),
            ),
        decreases keys@.len() - i,
    {
        assert(key_names(keys@).skip(i as int).drop_first() =~= key_names(keys@).skip(i + 1));
        match lookup(obj, keys[i]) {
            Some(v) => {
                return Some(v);
            },
            None => {},
        }
        i = i + 1;
    }
    None
}

/// The text of a value that is a string.
pub fn value_as_str(value: &JsonValue) -> (r: Option<&str>)
    ensures
        (match r {
            Some(s) => spec_as_str(Some(*value)) == Some(s@),
            None => spec_as_str(Some(*value)) is None,
        }),
{
    match value {
        JsonValue::String(s) => Some(s.as_str()),
        _ => None,
    }
}

/// A member read as text, borrowed.
pub fn get_string_ref<'a>(obj: &'a Vec<(String, JsonValue)>, keys: &[&str]) -> (r: Option<&'a str>)
    ensures
        (match r {
            Some(s) => spec_get_string(obj@, key_names(keys@)) == Some(s@),
            None => spec_get_string(obj@, key_names(keys@)) is None,
        }),
{
    match get_value(obj, keys) {
        Some(v) => value_as_str(v),
        None => None,
    }
}

/// A member read as text.
pub fn get_string(obj: &Vec<(String, JsonValue)>, keys: &[&str]) -> (r: Option<String>)
    ensures
        (match r {
            Some(s) => spec_get_string(obj@, key_names(keys@)) == Some(s@),
            None => spec_get_string(obj@, key_names(keys@)) is None,
        }),
{
    match get_string_ref(obj, keys) {
        Some(s) => Some(s.to_owned()),
        None => None,
    }
}

/// A member read as a flag.
pub fn get_bool(obj: &Vec<(String, JsonValue)>, keys: &[&str]) -> (r: Option<bool>)
    ensures
        r == spec_get_bool(obj@, key_names(keys@)),
{
    match get_value(obj, keys) {
        Some(JsonValue::Bool(b)) => Some(*b),
        Some(JsonValue::Number(n)) => match n.as_i64 {
            Some(x) => Some(x != 0),
            None => None,
        },
        Some(JsonValue::String(s)) => {
            if same_text(s.as_str(), "true") {
                Some(true)
            } else if same_text(s.as_str(), "false") {
                Some(false)
            } else {
                None
            }
        },
        _ => None,
    }
}

/// A member read as an `i64`.
pub fn get_i64(obj: &Vec<(String, JsonValue)>, keys: &[&str]) -> (r: Option<i64>)
    ensures
        r == spec_get_i64(obj@, key_names(keys@)),
{
    match get_value(obj, keys) {
        Some(JsonValue::Number(n)) => match n.as_i64 {
            Some(x) => Some(x),
            None => match n.as_u64 {
                Some(u) => if u <= 9223372036854775807u64 {
                    Some(u as i64)
                } else {
                    None
                },
                None => None,
            },
        },
        Some(JsonValue::String(s)) => parse_i64_text(s.as_str()),
        _ => None,
    }
}

/// A member read as an `i32`.
pub fn get_i32(obj: &Vec<(String, JsonValue)>, keys: &[&str]) -> (r: Option<i32>)
    ensures
        r == spec_get_i32(obj@, key_names(keys@)),
{
    match get_i64(obj, keys) {
        Some(x) => if -2147483648i64 <= x && x <= 2147483647i64 {
            Some(x as i32)
        } else {
            None
        },
        None => None,
    }
}

/// The items of a member that is an array; none otherwise.
pub fn get_array<'a>(obj: &'a Vec<(String, JsonValue)>, keys: &[&str]) -> (r: &'a [JsonValue])
    ensures
        r@ == spec_get_array(obj@, key_names(keys@)),
{
    match get_value(obj, keys) {
        Some(JsonValue::Array(items)) => items.as_slice(),
        _ => &[],
    }
}

/// The object under the first of the names that holds an object, or the
/// root itself.
pub fn payload_or_root<'a>(root: &'a Vec<(String, JsonValue)>, keys: &[&str]) -> (r: &'a Vec<
    (String, JsonValue),
>)
    ensures
        r@ == spec_payload_or_root(root@, key_names(keys@)),
{
    let mut i: usize = 0;
    assert(key_names(keys@).skip(0) =~= key_names(keys@));
    while i < keys.len()
        invariant
            i <= keys@.len(),
            spec_payload_or_root(root@, key_names(keys@)) == spec_payload_or_root(
                root@,
                key_names(keys@).skip(i as int),
            ),
        decreases keys@.len() - i,
    {
        assert(key_names(keys@).skip(i as int).drop_first() =~= key_names(keys@).skip(i + 1));
        match lookup(root, keys[i]) {
            Some(JsonValue::Object(o)) => {
                return o;
            },
            _ => {},
        }
        i = i + 1;
    }
    root
}

/// The texts among some values, in order.
pub fn texts(items: &[JsonValue]) -> (r: Vec<String>)
    ensures
        r@.map_values(|s: String| s@) == spec_texts(items@),
{
    let mut out: Vec<String> = Vec::new();
    let mut i: usize = 0;
    while i < items.len()
        invariant
            i <= items@.len(),
            out@.map_values(|s: String| s@) == spec_texts(items@.take(i as int)),
        decreases items@.len() - i,
    {
        assert(items@.take(i + 1).drop_last() =~= items@.take(i as int));
        match value_as_str(&items[i]) {
            Some(s) => {
                out.push(s.to_owned());
            },
            None => {},
        }
        proof {
            assert(items@.take(i + 1).last() == items@[i as int]);
        }
        assert(out@.map_values(|s: String| s@) =~= spec_texts(items@.take(i + 1)));
        i = i + 1;
    }
    assert(items@.take(items@.len() as int) =~= items@);
    out
}

} // verus!
