//! The library's model of a JSON value, and the text boundary to serde_json.
//!
//! The codec works on [`JsonValue`]; serde_json reads and writes the text.

use vstd::prelude::*;

verus! {

/// A JSON value as the codec reads it.
#[derive(Debug)]
pub enum JsonValue {
    Null,
    Bool(bool),
    /// A number: `Some` holds it where it is an integer that fits in `i64`.
    Number(Option<i64>),
    Str(String),
    Array(Vec<JsonValue>),
    /// The members of an object, in order.
    Object(Vec<(String, JsonValue)>),
}

/// serde_json's own value type, opaque here: only the conversions below look inside it.
#[verifier::external_type_specification]
#[verifier::external_body]
pub struct ExSerdeValue(serde_json::Value);

/// What serde_json reads from `text`, in the library's model; `None` where
/// the text is not JSON.
pub uninterp spec fn parsed_json(text: Seq<char>) -> Option<JsonValue>;

/// The JSON text that serde_json writes for `v`.
pub uninterp spec fn written_json(v: JsonValue) -> Seq<char>;

/// Relies on serde_json::Value's variants and serde_json::Number::as_i64:
/// carries a parsed value over into the library's model, variant for
/// variant. Part of [`parse_json`], which alone calls it; a number that is no
/// `i64` comes over as `Number(None)`.
#[verifier::external_body]
fn from_serde(v: &serde_json::Value) -> JsonValue {
    match v {
        serde_json::Value::Null => JsonValue::Null,
        serde_json::Value::Bool(b) => JsonValue::Bool(*b),
        serde_json::Value::Number(n) => JsonValue::Number(n.as_i64()),
        serde_json::Value::String(s) => JsonValue::Str(s.clone()),
        serde_json::Value::Array(a) => JsonValue::Array(a.iter().map(from_serde).collect()),
        serde_json::Value::Object(m) => JsonValue::Object(
            m.iter().map(|(k, x)| (k.clone(), from_serde(x))).collect(),
        ),
    }
}

/// Relies on serde_json::Value's variants and its `From<Option<i64>>`:
/// carries a model value over into serde_json's, variant for variant. Part
/// of [`write_json`], which alone calls it; `Number(None)` goes over as
/// `null`, and of an object's members listed twice under one name the last
/// one is kept.
#[verifier::external_body]
fn to_serde(v: &JsonValue) -> serde_json::Value {
    match v {
        JsonValue::Null => serde_json::Value::Null,
        JsonValue::Bool(b) => serde_json::Value::Bool(*b),
        JsonValue::Number(n) => serde_json::Value::from(*n),
        JsonValue::Str(s) => serde_json::Value::String(s.clone()),
        JsonValue::Array(a) => serde_json::Value::Array(a.iter().map(to_serde).collect()),
        JsonValue::Object(f) => serde_json::Value::Object(
            f.iter().map(|(k, x)| (k.clone(), to_serde(x))).collect(),
        ),
    }
}

/// Relies on serde_json::from_str: reads JSON text; what it reads depends on
/// the text alone.
#[verifier::external_body]
pub(crate) fn parse_json(text: &str) -> (r: Option<JsonValue>)
    ensures
        r == parsed_json(text@),
{
    match serde_json::from_str::<serde_json::Value>(text) {
        Ok(v) => Some(from_serde(&v)),
        Err(_) => None,
    }
}

/// Relies on serde_json::to_string: writes a value as JSON text; the text
/// depends on the value alone.
#[verifier::external_body]
pub(crate) fn write_json(v: &JsonValue) -> (r: String)
    ensures
        r@ == written_json(*v),
{
    serde_json::to_string(&to_serde(v)).unwrap_or_default()
}

/// The value of the first member of `fields` named `key`.
pub open spec fn field(fields: Seq<(String, JsonValue)>, key: Seq<char>) -> Option<JsonValue>
    decreases fields.len(),
{
    if fields.len() == 0 {
        None
    } else if fields[0].0@ == key {
        Some(fields[0].1)
    } else {
        field(fields.drop_first(), key)
    }
}

/// Finds the first member of `fields` named `key`.
pub fn get_field<'a>(fields: &'a Vec<(String, JsonValue)>, key: &str) -> (r: Option<&'a JsonValue>)
    ensures
        match r {
            Some(v) => field(fields@, key@) == Some(*v),
            None => field(fields@, key@) is None,
        },
{
    let k = key.to_owned();
    let mut i: usize = 0;
    assert(fields@.skip(0) =~= fields@);
    while i < fields.len()
        invariant
            0 <= i <= fields@.len(),
            k@ == key@,
            field(fields@, key@) == field(fields@.skip(i as int), key@),
        decreases fields@.len() - i,
    {
        if fields[i].0 == k {
            return Some(&fields[i].1);
        }
        assert(fields@.skip(i as int).drop_first() =~= fields@.skip(i + 1));
        i += 1;
    }
    None
}

/// An integer that fits in `i32`.
pub open spec fn json_i32(v: JsonValue) -> Option<i32> {
    match v {
        JsonValue::Number(Some(n)) => if i32::MIN <= n <= i32::MAX {
            Some(n as i32)
        } else {
            None
        },
        _ => None,
    }
}

/// An integer that fits in `u32`.
pub open spec fn json_u32(v: JsonValue) -> Option<u32> {
    match v {
        JsonValue::Number(Some(n)) => if 0 <= n <= u32::MAX {
            Some(n as u32)
        } else {
            None
        },
        _ => None,
    }
}

/// A non-negative integer, as `u64`.
pub open spec fn json_u64(v: JsonValue) -> Option<u64> {
    match v {
        JsonValue::Number(Some(n)) => if 0 <= n {
            Some(n as u64)
        } else {
            None
        },
        _ => None,
    }
}

/// The characters of a string value.
pub open spec fn json_str(v: JsonValue) -> Option<Seq<char>> {
    match v {
        JsonValue::Str(s) => Some(s@),
        _ => None,
    }
}

/// An optional non-negative integer: absent or `null` reads as `None`.
pub open spec fn json_opt_u64(v: Option<JsonValue>) -> Option<Option<u64>> {
    match v {
        None => Some(None),
        Some(JsonValue::Null) => Some(None),
        Some(x) => match json_u64(x) {
            Some(n) => Some(Some(n)),
            None => None,
        },
    }
}

/// Reads an integer that fits in `i32`.
pub fn as_i32(v: &JsonValue) -> (r: Option<i32>)
    ensures
        r == json_i32(*v),
{
    match v {
        JsonValue::Number(Some(n)) => if i32::MIN as i64 <= *n && *n <= i32::MAX as i64 {
            Some(*n as i32)
        } else {
            None
        },
        _ => None,
    }
}

/// Reads an integer that fits in `u32`.
pub fn as_u32(v: &JsonValue) -> (r: Option<u32>)
    ensures
        r == json_u32(*v),
{
    match v {
        JsonValue::Number(Some(n)) => if 0 <= *n && *n <= u32::MAX as i64 {
            Some(*n as u32)
        } else {
            None
        },
        _ => None,
    }
}

/// Reads a non-negative integer.
pub fn as_u64(v: &JsonValue) -> (r: Option<u64>)
    ensures
        r == json_u64(*v),
{
    match v {
        JsonValue::Number(Some(n)) => if 0 <= *n {
            Some(*n as u64)
        } else {
            None
        },
        _ => None,
    }
}

/// Reads a string.
pub fn as_string(v: &JsonValue) -> (r: Option<String>)
    ensures
        match r {
            Some(s) => json_str(*v) == Some(s@),
            None => json_str(*v) is None,
        },
{
    match v {
        JsonValue::Str(s) => Some(s.clone()),
        _ => None,
    }
}

/// Reads an optional non-negative integer.
pub fn as_opt_u64(v: Option<&JsonValue>) -> (r: Option<Option<u64>>)
    ensures
        r == json_opt_u64(match v {
            Some(x) => Some(*x),
            None => None,
        }),
{
    match v {
        None => Some(None),
        Some(JsonValue::Null) => Some(None),
        Some(x) => match as_u64(x) {
            Some(n) => Some(Some(n)),
            None => None,
        },
    }
}

/// A JSON string holding `s`.
pub fn string_value(s: &String) -> (r: JsonValue)
    ensures
        json_str(r) == Some(s@),
{
    JsonValue::Str(s.clone())
}

/// A JSON array of strings.
pub fn strings_value(items: &Vec<String>) -> (r: JsonValue)
    ensures
        json_strings(r) == Some(items.deep_view()),
{
    let mut out: Vec<JsonValue> = Vec::new();
    let mut i: usize = 0;
    while i < items.len()
        invariant
            0 <= i <= items@.len(),
            out@.len() == i,
            forall|j: int| 0 <= j < i ==> json_str(#[trigger] out@[j]) == Some(items@[j]@),
        decreases items@.len() - i,
    {
        out.push(JsonValue::Str(items[i].clone()));
        i += 1;
    }
    let r = JsonValue::Array(out);
    assert(Seq::new(out@.len(), |j: int| json_str(out@[j])->0) =~= items.deep_view());
    r
}

/// The strings of an array whose items are all strings.
pub open spec fn json_strings(v: JsonValue) -> Option<Seq<Seq<char>>> {
    match v {
        JsonValue::Array(items) => if forall|j: int|
            0 <= j < items@.len() ==> (#[trigger] json_str(items@[j])) is Some {
            Some(Seq::new(items@.len(), |j: int| json_str(items@[j])->0))
        } else {
            None
        },
        _ => None,
    }
}

/// Reads an array of strings.
pub fn as_strings(v: &JsonValue) -> (r: Option<Vec<String>>)
    ensures
        match r {
            Some(x) => json_strings(*v) == Some(x.deep_view()),
            None => json_strings(*v) is None,
        },
{
    match v {
        JsonValue::Array(items) => {
            let mut out: Vec<String> = Vec::new();
            let mut i: usize = 0;
            while i < items.len()
                invariant
                    *v == JsonValue::Array(*items),
                    0 <= i <= items@.len(),
                    out@.len() == i,
                    forall|j: int| 0 <= j < i ==> json_str(#[trigger] items@[j]) == Some(out@[j]@),
                decreases items@.len() - i,
            {
                match as_string(&items[i]) {
                    Some(s) => out.push(s),
                    None => {
                        assert(json_str(items@[i as int]) is None);
                        return None;
                    },
                }
                i += 1;
            }
            assert(Seq::new(items@.len(), |j: int| json_str(items@[j])->0) =~= out.deep_view());
            Some(out)
        },
        _ => None,
    }
}

/// The member found first under `key` is the one at position `i`.
pub proof fn lemma_field_at(fs: Seq<(String, JsonValue)>, key: Seq<char>, i: int)
    requires
        0 <= i < fs.len(),
        fs[i].0@ == key,
        forall|j: int| 0 <= j < i ==> fs[j].0@ != key,
    ensures
        field(fs, key) == Some(fs[i].1),
    decreases i,
{
    if i > 0 {
        let rest = fs.drop_first();
        assert forall|j: int| 0 <= j < i - 1 implies rest[j].0@ != key by {
            assert(rest[j] == fs[j + 1]);
        }
        lemma_field_at(rest, key, i - 1);
    }
}

/// No member is named `key`.
pub proof fn lemma_field_absent(fs: Seq<(String, JsonValue)>, key: Seq<char>)
    requires
        forall|j: int| 0 <= j < fs.len() ==> fs[j].0@ != key,
    ensures
        field(fs, key) is None,
    decreases fs.len(),
{
    if fs.len() > 0 {
        let rest = fs.drop_first();
        assert forall|j: int| 0 <= j < rest.len() implies rest[j].0@ != key by {
            assert(rest[j] == fs[j + 1]);
        }
        lemma_field_absent(rest, key);
    }
}

/// The integers of an array whose items all fit in `u32`.
pub open spec fn json_u32s(v: JsonValue) -> Option<Seq<u32>> {
    match v {
        JsonValue::Array(items) => if forall|j: int|
            0 <= j < items@.len() ==> (#[trigger] json_u32(items@[j])) is Some {
            Some(Seq::new(items@.len(), |j: int| json_u32(items@[j])->0))
        } else {
            None
        },
        _ => None,
    }
}

/// A JSON array of integers.
pub fn u32s_value(items: &Vec<u32>) -> (r: JsonValue)
    ensures
        json_u32s(r) == Some(items@),
{
    let mut out: Vec<JsonValue> = Vec::new();
    let mut i: usize = 0;
    while i < items.len()
        invariant
            0 <= i <= items@.len(),
            out@.len() == i,
            forall|j: int| 0 <= j < i ==> json_u32(#[trigger] out@[j]) == Some(items@[j]),
        decreases items@.len() - i,
    {
        out.push(JsonValue::Number(Some(items[i] as i64)));
        i += 1;
    }
    let r = JsonValue::Array(out);
    assert(Seq::new(out@.len(), |j: int| json_u32(out@[j])->0) =~= items@);
    r
}

/// Reads an array of integers that fit in `u32`.
pub fn as_u32s(v: &JsonValue) -> (r: Option<Vec<u32>>)
    ensures
        match r {
            Some(x) => json_u32s(*v) == Some(x@),
            None => json_u32s(*v) is None,
        },
{
    match v {
        JsonValue::Array(items) => {
            let mut out: Vec<u32> = Vec::new();
            let mut i: usize = 0;
            while i < items.len()
                invariant
                    *v == JsonValue::Array(*items),
                    0 <= i <= items@.len(),
                    out@.len() == i,
                    forall|j: int| 0 <= j < i ==> json_u32(#[trigger] items@[j]) == Some(out@[j]),
                decreases items@.len() - i,
            {
                match as_u32(&items[i]) {
                    Some(n) => out.push(n),
                    None => {
                        assert(json_u32(items@[i as int]) is None);
                        return None;
                    },
                }
                i += 1;
            }
            assert(Seq::new(items@.len(), |j: int| json_u32(items@[j])->0) =~= out@);
            Some(out)
        },
        _ => None,
    }
}

} // verus!
