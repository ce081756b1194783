//! A JSON-like tree the engine can reason about.
//!
//! Backend payloads are not contractually shaped, so extraction works over
//! this tree by alias lists and depth-first search: an object's own keys are
//! checked first, then each nested value in field order, then array elements
//! in order; the first match anywhere wins. That traversal order is an
//! observable contract of the engine, and the spec functions here pin it.
//!
//! Fractional numbers are rounded to integers when the tree is built (see
//! `parse_json`); inside the library a number is an `i64` or a `u64`.

use vstd::prelude::*;
use vstd::string::StringExecFns;
use crate::text::{parse_i64, parse_i64_spec, dec_int, dec_nat};

verus! {

#[derive(Debug)]
pub enum JsonValue {
    Null,
    Bool(bool),
    Int(i64),
    UInt(u64),
    Str(String),
    Arr(Vec<JsonValue>),
    Obj(Vec<(String, JsonValue)>),
}

/// Exact lookup among an object's own keys: first field with the key wins.
pub open spec fn obj_lookup(fields: Seq<(String, JsonValue)>, key: Seq<char>) -> Option<JsonValue>
    decreases fields.len(),
{
    if fields.len() == 0 {
        None
    } else if fields[0].0@ == key {
        Some(fields[0].1)
    } else {
        obj_lookup(fields.drop_first(), key)
    }
}

/// Depth-first search for a key anywhere in the tree: own keys first, then
/// nested object values in field order, then array elements in order.
pub open spec fn find_in_value(v: JsonValue, key: Seq<char>) -> Option<JsonValue>
    decreases v,
{
    match v {
        JsonValue::Obj(fields) => match obj_lookup(fields@, key) {
            Some(x) => Some(x),
            None => find_in_field_values(fields@, key),
        },
        JsonValue::Arr(items) => find_in_items(items@, key),
        _ => None,
    }
}

pub open spec fn find_in_field_values(fields: Seq<(String, JsonValue)>, key: Seq<char>) -> Option<JsonValue>
    decreases fields,
{
    if fields.len() == 0 {
        None
    } else {
        match find_in_value(fields[0].1, key) {
            Some(x) => Some(x),
            None => find_in_field_values(fields.drop_first(), key),
        }
    }
}

pub open spec fn find_in_items(items: Seq<JsonValue>, key: Seq<char>) -> Option<JsonValue>
    decreases items,
{
    if items.len() == 0 {
        None
    } else {
        match find_in_value(items[0], key) {
            Some(x) => Some(x),
            None => find_in_items(items.drop_first(), key),
        }
    }
}

/// Two's-complement reading of a `u64` as an `i64`.
pub open spec fn u64_as_i64_spec(u: u64) -> i64 {
    if u <= 0x7fffffffffffffff {
        u as i64
    } else {
        (u - 0x10000000000000000) as i64
    }
}

/// Integer coercion: numbers directly, numeric strings by decimal parse,
/// anything else not a number.
pub open spec fn coerce_i64_spec(v: JsonValue) -> Option<i64> {
    match v {
        JsonValue::Int(i) => Some(i),
        JsonValue::UInt(u) => Some(u64_as_i64_spec(u)),
        JsonValue::Str(s) => parse_i64_spec(s@),
        _ => None,
    }
}

/// String form of a scalar: strings as they are, numbers rendered in decimal.
pub open spec fn string_of_scalar(v: JsonValue) -> Option<Seq<char>> {
    match v {
        JsonValue::Str(s) => Some(s@),
        JsonValue::Int(i) => Some(dec_int(i as int)),
        JsonValue::UInt(u) => Some(dec_nat(u as int)),
        _ => None,
    }
}

pub open spec fn key_views(keys: Seq<&str>) -> Seq<Seq<char>> {
    keys.map_values(|k: &str| k@)
}

/// First alias, in priority order, whose first depth-first occurrence
/// coerces to an integer.
pub open spec fn first_i64_for_keys(v: JsonValue, keys: Seq<Seq<char>>) -> Option<i64>
    decreases keys.len(),
{
    if keys.len() == 0 {
        None
    } else {
        match find_in_value(v, keys[0]) {
            Some(found) => match coerce_i64_spec(found) {
                Some(n) => Some(n),
                None => first_i64_for_keys(v, keys.drop_first()),
            },
            None => first_i64_for_keys(v, keys.drop_first()),
        }
    }
}

/// First alias, in priority order, present among an object's own keys with a
/// scalar value that has a string form.
pub open spec fn first_string_in_fields(fields: Seq<(String, JsonValue)>, keys: Seq<Seq<char>>) -> Option<Seq<char>>
    decreases keys.len(),
{
    if keys.len() == 0 {
        None
    } else {
        match obj_lookup(fields, keys[0]) {
            Some(found) => match string_of_scalar(found) {
                Some(s) => Some(s),
                None => first_string_in_fields(fields, keys.drop_first()),
            },
            None => first_string_in_fields(fields, keys.drop_first()),
        }
    }
}

/// First alias, in priority order, present among an object's own keys with a
/// value that coerces to an integer.
pub open spec fn first_i64_in_fields(fields: Seq<(String, JsonValue)>, keys: Seq<Seq<char>>) -> Option<i64>
    decreases keys.len(),
{
    if keys.len() == 0 {
        None
    } else {
        match obj_lookup(fields, keys[0]) {
            Some(found) => match coerce_i64_spec(found) {
                Some(n) => Some(n),
                None => first_i64_in_fields(fields, keys.drop_first()),
            },
            None => first_i64_in_fields(fields, keys.drop_first()),
        }
    }
}

pub fn u64_as_i64(u: u64) -> (r: i64)
    ensures
        r == u64_as_i64_spec(u),
{
    if u <= 0x7fffffffffffffffu64 {
        u as i64
    } else {
        let d: u64 = u - 0x8000000000000000u64;
        i64::MIN + (d as i64)
    }
}

pub fn coerce_i64(v: &JsonValue) -> (r: Option<i64>)
    ensures
        r == coerce_i64_spec(*v),
{
    match v {
        JsonValue::Int(i) => Some(*i),
        JsonValue::UInt(u) => Some(u64_as_i64(*u)),
        JsonValue::Str(s) => parse_i64(s.as_str()),
        _ => None,
    }
}

/// Lookup among an object's own keys, first matching field wins.
pub fn json_obj_get<'a>(fields: &'a Vec<(String, JsonValue)>, key: &str) -> (r: Option<&'a JsonValue>)
    ensures
        match r {
            Some(x) => obj_lookup(fields@, key@) == Some(*x),
            None => obj_lookup(fields@, key@) is None,
        },
{
    let key_s = String::from_str(key);
    proof {
        assert(fields@.skip(0) =~= fields@);
    }
    let mut i: usize = 0;
    while i < fields.len()
        invariant
            i <= fields@.len(),
            key_s@ == key@,
            obj_lookup(fields@, key@) == obj_lookup(fields@.skip(i as int), key@),
        decreases fields@.len() - i,
    {
        let ghost rest = fields@.skip(i as int);
        proof {
            assert(rest[0] == fields@[i as int]);
            assert(rest.drop_first() =~= fields@.skip(i as int + 1));
        }
        if fields[i].0.eq(&key_s) {
            return Some(&fields[i].1);
        }
        i = i + 1;
    }
    proof {
        assert(fields@.skip(fields@.len() as int).len() == 0);
    }
    None
}

/// Depth-first search for a key anywhere in the tree.
pub fn find_value_by_key<'a>(v: &'a JsonValue, key: &str) -> (r: Option<&'a JsonValue>)
    ensures
        match r {
            Some(x) => find_in_value(*v, key@) == Some(*x),
            None => find_in_value(*v, key@) is None,
        },
    decreases *v,
{
    match v {
        JsonValue::Obj(fields) => {
            if let Some(x) = json_obj_get(fields, key) {
                return Some(x);
            }
            proof {
                assert(fields@.skip(0) =~= fields@);
            }
            let mut i: usize = 0;
            while i < fields.len()
                invariant
                    i <= fields@.len(),
                    obj_lookup(fields@, key@) is None,
                    find_in_field_values(fields@, key@) == find_in_field_values(fields@.skip(i as int), key@),
                    *v == JsonValue::Obj(*fields),
                decreases fields@.len() - i,
            {
                let ghost rest = fields@.skip(i as int);
                proof {
                    assert(rest[0] == fields@[i as int]);
                    assert(rest.drop_first() =~= fields@.skip(i as int + 1));
                    assert(decreases_to!(*v => *fields));
                    assert(decreases_to!(*fields => fields@));
                    assert(decreases_to!(fields@ => fields@[i as int]));
                    assert(decreases_to!(fields@[i as int] => fields@[i as int].1));
                }
                if let Some(x) = find_value_by_key(&fields[i].1, key) {
                    return Some(x);
                }
                i = i + 1;
            }
            proof {
                assert(fields@.skip(fields@.len() as int).len() == 0);
            }
            None
        },
        JsonValue::Arr(items) => {
            proof {
                assert(items@.skip(0) =~= items@);
            }
            let mut i: usize = 0;
            while i < items.len()
                invariant
                    i <= items@.len(),
                    find_in_items(items@, key@) == find_in_items(items@.skip(i as int), key@),
                    *v == JsonValue::Arr(*items),
                decreases items@.len() - i,
            {
                let ghost rest = items@.skip(i as int);
                proof {
                    assert(rest[0] == items@[i as int]);
                    assert(rest.drop_first() =~= items@.skip(i as int + 1));
                    assert(decreases_to!(*v => *items));
                    assert(decreases_to!(*items => items@));
                    assert(decreases_to!(items@ => items@[i as int]));
                }
                if let Some(x) = find_value_by_key(&items[i], key) {
                    return Some(x);
                }
                i = i + 1;
            }
            proof {
                assert(items@.skip(items@.len() as int).len() == 0);
            }
            None
        },
        _ => None,
    }
}

/// Alias-priority integer extraction anywhere in the tree.
pub fn find_first_i64_for_keys(v: &JsonValue, keys: &[&str]) -> (r: Option<i64>)
    ensures
        r == first_i64_for_keys(*v, key_views(keys@)),
{
    proof {
        assert(keys@.skip(0) =~= keys@);
    }
    let mut i: usize = 0;
    while i < keys.len()
        invariant
            i <= keys@.len(),
            first_i64_for_keys(*v, key_views(keys@)) == first_i64_for_keys(*v, key_views(keys@.skip(i as int))),
        decreases keys@.len() - i,
    {
        let ghost rest = key_views(keys@.skip(i as int));
        proof {
            assert(rest[0] == keys@[i as int]@);
            assert(rest.drop_first() =~= key_views(keys@.skip(i as int + 1)));
        }
        let key = keys[i];
        if let Some(found) = find_value_by_key(v, key) {
            if let Some(n) = coerce_i64(found) {
                return Some(n);
            }
        }
        i = i + 1;
    }
    proof {
        assert(key_views(keys@.skip(keys@.len() as int)).len() == 0);
    }
    None
}

/// Alias-priority string extraction among an object's own keys.
pub fn find_string_in_object(fields: &Vec<(String, JsonValue)>, keys: &[&str]) -> (r: Option<String>)
    ensures
        match r {
            Some(s) => first_string_in_fields(fields@, key_views(keys@)) == Some(s@),
            None => first_string_in_fields(fields@, key_views(keys@)) is None,
        },
{
    proof {
        assert(keys@.skip(0) =~= keys@);
    }
    let mut i: usize = 0;
    while i < keys.len()
        invariant
            i <= keys@.len(),
            first_string_in_fields(fields@, key_views(keys@)) == first_string_in_fields(fields@, key_views(keys@.skip(i as int))),
        decreases keys@.len() - i,
    {
        let ghost rest = key_views(keys@.skip(i as int));
        proof {
            assert(rest[0] == keys@[i as int]@);
            assert(rest.drop_first() =~= key_views(keys@.skip(i as int + 1)));
        }
        let key = keys[i];
        if let Some(found) = json_obj_get(fields, key) {
            match found {
                JsonValue::Str(s) => {
                    return Some(s.clone());
                },
                JsonValue::Int(n) => {
                    return Some(crate::text::i64_to_dec(*n));
                },
                JsonValue::UInt(u) => {
                    return Some(crate::text::u64_to_dec(*u));
                },
                _ => {},
            }
        }
        i = i + 1;
    }
    proof {
        assert(key_views(keys@.skip(keys@.len() as int)).len() == 0);
    }
    None
}

/// Alias-priority integer extraction among an object's own keys.
pub fn find_i64_in_object(fields: &Vec<(String, JsonValue)>, keys: &[&str]) -> (r: Option<i64>)
    ensures
        r == first_i64_in_fields(fields@, key_views(keys@)),
{
    proof {
        assert(keys@.skip(0) =~= keys@);
    }
    let mut i: usize = 0;
    while i < keys.len()
        invariant
            i <= keys@.len(),
            first_i64_in_fields(fields@, key_views(keys@)) == first_i64_in_fields(fields@, key_views(keys@.skip(i as int))),
        decreases keys@.len() - i,
    {
        let ghost rest = key_views(keys@.skip(i as int));
        proof {
            assert(rest[0] == keys@[i as int]@);
            assert(rest.drop_first() =~= key_views(keys@.skip(i as int + 1)));
        }
        let key = keys[i];
        if let Some(found) = json_obj_get(fields, key) {
            if let Some(n) = coerce_i64(found) {
                return Some(n);
            }
        }
        i = i + 1;
    }
    proof {
        assert(key_views(keys@.skip(keys@.len() as int)).len() == 0);
    }
    None
}

/// Idempotent coercion: a string field holding the decimal rendering of a
/// number coerces exactly as the number itself.
pub proof fn lemma_coercion_idempotent(n: i64, s: String)
    requires
        s@ == crate::text::dec_int(n as int),
    ensures
        coerce_i64_spec(JsonValue::Str(s)) == coerce_i64_spec(JsonValue::Int(n)),
{
    crate::text::lemma_parse_round_trip(n);
}

/// The tree that JSON text parses to, when it is valid JSON; parsing is a
/// function of the text alone.
pub uninterp spec fn json_tree_of(text: Seq<char>) -> Option<JsonValue>;

/// Relies on serde_json::from_str to decide JSON validity and build the
/// value tree; the tree is mirrored into `JsonValue` variant by variant,
/// with object fields in serde_json's iteration order and fractional
/// numbers rounded to the nearest integer.
#[verifier::external_body]
pub fn parse_json(text: &str) -> (r: Result<JsonValue, String>)
    ensures
        match r {
            Ok(t) => json_tree_of(text@) == Some(t),
            Err(_) => json_tree_of(text@) is None,
        },
{
    match serde_json::from_str::<serde_json::Value>(text) {
        Ok(v) => Ok(tree_of_value(&v)),
        Err(e) => Err(e.to_string()),
    }
}

/// serde_json's value tree, opaque here; `tree_of_value` mirrors it.
#[verifier::external_type_specification]
#[verifier::external_body]
pub struct ExSerdeValue(serde_json::Value);

/// serde_json's number, opaque here; `tree_of_number` reads it.
#[verifier::external_type_specification]
#[verifier::external_body]
pub struct ExSerdeNumber(serde_json::Number);

/// Relies on serde_json::Number's accessors: i64 when representable, then
/// u64, then the f64 reading rounded to the nearest integer.
#[verifier::external_body]
fn tree_of_number(n: &serde_json::Number) -> (r: JsonValue)
{
    match (n.as_i64(), n.as_u64()) {
        (Some(i), _) => JsonValue::Int(i),
        (None, Some(u)) => JsonValue::UInt(u),
        (None, None) => JsonValue::Int(n.as_f64().map(|f| f.round() as i64).unwrap_or(0)),
    }
}

/// Relies on serde_json::Value's accessors; each variant maps to the
/// matching `JsonValue` variant, field by field.
#[verifier::external_body]
fn tree_of_value(v: &serde_json::Value) -> (r: JsonValue)
{
    match v {
        serde_json::Value::Null => JsonValue::Null,
        serde_json::Value::Bool(b) => JsonValue::Bool(*b),
        serde_json::Value::Number(n) => tree_of_number(n),
        serde_json::Value::String(s) => JsonValue::Str(s.clone()),
        serde_json::Value::Array(items) => JsonValue::Arr(items.iter().map(tree_of_value).collect()),
        serde_json::Value::Object(map) => JsonValue::Obj(
            map.iter().map(|(k, x)| (k.clone(), tree_of_value(x))).collect(),
        ),
    }
}

} // verus!
