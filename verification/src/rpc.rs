use vstd::prelude::*;
use vstd::string::*;
use crate::frame::Coord;
use crate::json::{json_as_bool, json_as_u64, json_get, json_is_object, json_string, JsonValue};
use crate::text::owned;

verus! {

/// A JSON-RPC error with its code and message.
#[derive(Clone, Debug, PartialEq, Eq)]
pub struct RpcError {
    pub code: i64,
    pub message: String,
}

pub const INVALID_PARAMS: i64 = -32602;

impl RpcError {
    /// An invalid-params error (code -32602).
    pub fn invalid_params(message: String) -> (r: Self)
        ensures
            r.code == INVALID_PARAMS,
            r.message == message,
    {
        RpcError { code: INVALID_PARAMS, message }
    }
}

/// A parse result agrees with the first error a parser meets, or, when it
/// meets none, with the value it reads.
pub open spec fn parsed<T>(r: Result<T, RpcError>, err: Option<Seq<char>>, val: T) -> bool {
    match r {
        Ok(x) => err is None && x == val,
        Err(e) => e.code == INVALID_PARAMS && err == Some(e.message@),
    }
}

/// The first of two possible errors, in the order the parser meets them.
pub open spec fn first(a: Option<Seq<char>>, b: Option<Seq<char>>) -> Option<Seq<char>> {
    if a is Some {
        a
    } else {
        b
    }
}

/// `prefix`, then `field`, then `suffix`.
pub open spec fn quoted(prefix: Seq<char>, field: Seq<char>, suffix: Seq<char>) -> Seq<char> {
    prefix + field + suffix
}

pub fn concat3(prefix: &str, middle: &str, suffix: &str) -> (r: String)
    ensures
        r@ == quoted(prefix@, middle@, suffix@),
{
    let mut s = owned(prefix);
    s.append(middle);
    s.append(suffix);
    s
}

/// "field `{field}` must be {what}"
pub open spec fn must_be(field: Seq<char>, what: Seq<char>) -> Seq<char> {
    quoted("field `"@, field, "` must be "@) + what
}

pub fn must_be_message(field: &str, what: &str) -> (r: String)
    ensures
        r@ == must_be(field@, what@),
{
    let mut s = concat3("field `", field, "` must be ");
    s.append(what);
    s
}

pub fn invalid_field(field: &str, what: &str) -> (r: RpcError)
    ensures
        r.code == INVALID_PARAMS,
        r.message@ == must_be(field@, what@),
{
    RpcError::invalid_params(must_be_message(field, what))
}

/// "unsupported {what} `{value}`"
pub open spec fn unsupported(what: Seq<char>, value: Seq<char>) -> Seq<char> {
    quoted("unsupported "@ + what + " `"@, value, "`"@)
}

pub fn unsupported_value(what: &str, value: &str) -> (r: RpcError)
    ensures
        r.code == INVALID_PARAMS,
        r.message@ == unsupported(what@, value@),
{
    let mut s = owned("unsupported ");
    s.append(what);
    s.append(" `");
    s.append(value);
    s.append("`");
    RpcError::invalid_params(s)
}

// Required object members.
pub open spec fn object_err(v: JsonValue, field: Seq<char>) -> Option<Seq<char>> {
    match json_get(v, field) {
        None => Some(quoted("missing required field `"@, field, "`"@)),
        Some(x) => if json_is_object(x) {
            None
        } else {
            Some(must_be(field, "an object"@))
        },
    }
}

pub open spec fn object_val(v: JsonValue, field: Seq<char>) -> JsonValue {
    json_get(v, field)->0
}

/// A required member that must be an object.
pub fn required_object_field<'a>(value: &'a JsonValue, field: &str) -> (r: Result<&'a JsonValue, RpcError>)
    ensures
        match r {
            Ok(x) => object_err(*value, field@) is None && *x == object_val(*value, field@),
            Err(e) => e.code == INVALID_PARAMS && object_err(*value, field@) == Some(e.message@),
        },
{
    match value.get(field) {
        None => Err(RpcError::invalid_params(concat3("missing required field `", field, "`"))),
        Some(v) => {
            if v.is_object() {
                Ok(v)
            } else {
                Err(invalid_field(field, "an object"))
            }
        },
    }
}

// Required array members.
pub open spec fn array_err(v: JsonValue, field: Seq<char>) -> Option<Seq<char>> {
    match json_get(v, field) {
        Some(x) => if x is Array {
            None
        } else {
            Some(must_be(field, "an array"@))
        },
        None => Some(must_be(field, "an array"@)),
    }
}

pub open spec fn array_val(v: JsonValue, field: Seq<char>) -> Seq<JsonValue> {
    (json_get(v, field)->0)->Array_0@
}

/// A required member that must be an array.
pub fn required_array_field<'a>(value: &'a JsonValue, field: &str) -> (r: Result<&'a Vec<JsonValue>, RpcError>)
    ensures
        match r {
            Ok(x) => array_err(*value, field@) is None && x@ == array_val(*value, field@),
            Err(e) => e.code == INVALID_PARAMS && array_err(*value, field@) == Some(e.message@),
        },
{
    match value.get(field) {
        Some(v) => match v.as_array() {
            Some(a) => Ok(a),
            None => Err(invalid_field(field, "an array")),
        },
        None => Err(invalid_field(field, "an array")),
    }
}

// Required string members.
pub open spec fn string_err(v: JsonValue, field: Seq<char>) -> Option<Seq<char>> {
    match json_get(v, field) {
        Some(x) => if json_string(x) is Some {
            None
        } else {
            Some(must_be(field, "a string"@))
        },
        None => Some(must_be(field, "a string"@)),
    }
}

pub open spec fn string_val(v: JsonValue, field: Seq<char>) -> String {
    json_string(json_get(v, field)->0)->0
}

/// A required member that must be a string.
pub fn required_string_field<'a>(value: &'a JsonValue, field: &str) -> (r: Result<&'a String, RpcError>)
    ensures
        match r {
            Ok(x) => string_err(*value, field@) is None && *x == string_val(*value, field@),
            Err(e) => e.code == INVALID_PARAMS && string_err(*value, field@) == Some(e.message@),
        },
{
    match value.get(field) {
        Some(v) => match v.as_string() {
            Some(s) => Ok(s),
            None => Err(invalid_field(field, "a string")),
        },
        None => Err(invalid_field(field, "a string")),
    }
}

// Optional string members.
pub open spec fn opt_string_err(v: JsonValue, field: Seq<char>) -> Option<Seq<char>> {
    match json_get(v, field) {
        Some(x) => if json_string(x) is Some {
            None
        } else {
            Some(must_be(field, "a string"@))
        },
        None => None,
    }
}

pub open spec fn opt_string_val(v: JsonValue, field: Seq<char>) -> Option<String> {
    match json_get(v, field) {
        Some(x) => json_string(x),
        None => None,
    }
}

/// An optional member that, when present, must be a string.
pub fn optional_string_field<'a>(value: &'a JsonValue, field: &str) -> (r: Result<Option<&'a String>, RpcError>)
    ensures
        match r {
            Ok(x) => opt_string_err(*value, field@) is None && (match x {
                Some(s) => opt_string_val(*value, field@) == Some(*s),
                None => opt_string_val(*value, field@) is None,
            }),
            Err(e) => e.code == INVALID_PARAMS && opt_string_err(*value, field@) == Some(e.message@),
        },
{
    match value.get(field) {
        None => Ok(None),
        Some(v) => match v.as_string() {
            Some(s) => Ok(Some(s)),
            None => Err(invalid_field(field, "a string")),
        },
    }
}

/// An owned copy of an optional string member.
pub fn optional_owned_string_field(value: &JsonValue, field: &str) -> (r: Result<Option<String>, RpcError>)
    ensures
        parsed(r, opt_string_err(*value, field@), opt_string_val(*value, field@)),
{
    match optional_string_field(value, field)? {
        Some(s) => Ok(Some(s.clone())),
        None => Ok(None),
    }
}

/// An owned copy of a required string member.
pub fn required_owned_string_field(value: &JsonValue, field: &str) -> (r: Result<String, RpcError>)
    ensures
        parsed(r, string_err(*value, field@), string_val(*value, field@)),
{
    let s = required_string_field(value, field)?;
    Ok(s.clone())
}

// Integer members.
pub open spec fn u64_err(v: JsonValue, field: Seq<char>) -> Option<Seq<char>> {
    match json_get(v, field) {
        Some(x) => if json_as_u64(x) is Some {
            None
        } else {
            Some(must_be(field, "an integer"@))
        },
        None => Some(must_be(field, "an integer"@)),
    }
}

pub open spec fn u64_val(v: JsonValue, field: Seq<char>) -> u64 {
    json_as_u64(json_get(v, field)->0)->0
}

/// A required member that must be a non-negative integer.
pub fn required_u64_field(value: &JsonValue, field: &str) -> (r: Result<u64, RpcError>)
    ensures
        parsed(r, u64_err(*value, field@), u64_val(*value, field@)),
{
    match value.get(field) {
        Some(v) => match v.as_u64() {
            Some(u) => Ok(u),
            None => Err(invalid_field(field, "an integer")),
        },
        None => Err(invalid_field(field, "an integer")),
    }
}

pub open spec fn opt_u64_err(v: JsonValue, field: Seq<char>) -> Option<Seq<char>> {
    match json_get(v, field) {
        Some(x) => if json_as_u64(x) is Some {
            None
        } else {
            Some(must_be(field, "an integer"@))
        },
        None => None,
    }
}

pub open spec fn opt_u64_val(v: JsonValue, field: Seq<char>) -> Option<u64> {
    match json_get(v, field) {
        Some(x) => json_as_u64(x),
        None => None,
    }
}

/// An optional member that, when present, must be a non-negative integer.
pub fn optional_u64_field(value: &JsonValue, field: &str) -> (r: Result<Option<u64>, RpcError>)
    ensures
        parsed(r, opt_u64_err(*value, field@), opt_u64_val(*value, field@)),
{
    match value.get(field) {
        None => Ok(None),
        Some(v) => match v.as_u64() {
            Some(u) => Ok(Some(u)),
            None => Err(invalid_field(field, "an integer")),
        },
    }
}

// Boolean members.
pub open spec fn opt_bool_err(v: JsonValue, field: Seq<char>) -> Option<Seq<char>> {
    match json_get(v, field) {
        Some(x) => if json_as_bool(x) is Some {
            None
        } else {
            Some(must_be(field, "a boolean"@))
        },
        None => None,
    }
}

pub open spec fn opt_bool_val(v: JsonValue, field: Seq<char>) -> Option<bool> {
    match json_get(v, field) {
        Some(x) => json_as_bool(x),
        None => None,
    }
}

/// An optional member that, when present, must be a boolean.
pub fn optional_bool_field(value: &JsonValue, field: &str) -> (r: Result<Option<bool>, RpcError>)
    ensures
        parsed(r, opt_bool_err(*value, field@), opt_bool_val(*value, field@)),
{
    match value.get(field) {
        None => Ok(None),
        Some(v) => match v.as_bool() {
            Some(b) => Ok(Some(b)),
            None => Err(invalid_field(field, "a boolean")),
        },
    }
}

// Number members, read at single precision.
pub open spec fn json_number_bits(v: JsonValue) -> Option<u32> {
    match v {
        JsonValue::Number(n) => Some(n.f32_bits),
        JsonValue::Float32(b) => Some(b),
        _ => None,
    }
}

pub fn number_bits(v: &JsonValue) -> (r: Option<u32>)
    ensures
        r == json_number_bits(*v),
{
    match v {
        JsonValue::Number(n) => Some(n.f32_bits),
        JsonValue::Float32(b) => Some(*b),
        _ => None,
    }
}

pub open spec fn coord_err(v: JsonValue, field: Seq<char>) -> Option<Seq<char>> {
    match json_get(v, field) {
        Some(x) => if json_number_bits(x) is Some {
            None
        } else {
            Some(must_be(field, "a number"@))
        },
        None => Some(must_be(field, "a number"@)),
    }
}

pub open spec fn coord_val(v: JsonValue, field: Seq<char>) -> Coord {
    Coord { bits: json_number_bits(json_get(v, field)->0)->0 }
}

/// A required member that must be a number, read at single precision.
pub fn required_f32_field(value: &JsonValue, field: &str) -> (r: Result<Coord, RpcError>)
    ensures
        parsed(r, coord_err(*value, field@), coord_val(*value, field@)),
{
    match value.get(field) {
        Some(v) => match number_bits(v) {
            Some(bits) => Ok(Coord { bits }),
            None => Err(invalid_field(field, "a number")),
        },
        None => Err(invalid_field(field, "a number")),
    }
}

pub open spec fn opt_coord_err(v: JsonValue, field: Seq<char>) -> Option<Seq<char>> {
    match json_get(v, field) {
        Some(x) => if json_number_bits(x) is Some {
            None
        } else {
            Some(must_be(field, "a number"@))
        },
        None => None,
    }
}

pub open spec fn opt_coord_val(v: JsonValue, field: Seq<char>) -> Option<Coord> {
    match json_get(v, field) {
        Some(x) => match json_number_bits(x) {
            Some(b) => Some(Coord { bits: b }),
            None => None,
        },
        None => None,
    }
}

/// An optional member that, when present, must be a number, read at single precision.
pub fn optional_f32_field(value: &JsonValue, field: &str) -> (r: Result<Option<Coord>, RpcError>)
    ensures
        parsed(r, opt_coord_err(*value, field@), opt_coord_val(*value, field@)),
{
    match value.get(field) {
        None => Ok(None),
        Some(v) => match number_bits(v) {
            Some(bits) => Ok(Some(Coord { bits })),
            None => Err(invalid_field(field, "a number")),
        },
    }
}

} // verus!
