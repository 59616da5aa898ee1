//! The parts of the `serde_json` crate that messages are read with.

use serde_json::Value;
use vstd::prelude::*;
use vstd::utf8::*;

verus! {

/// `serde_json::Value`.
#[verifier::external_type_specification]
#[verifier::external_body]
pub struct ExValue(serde_json::Value);

/// `serde_json::Error`.
#[verifier::external_type_specification]
#[verifier::external_body]
pub struct ExJsonError(serde_json::Error);

/// A member of a JSON object: its kind and, of a string, its text.
#[derive(Debug)]
pub enum JsonField {
    Null,
    Bool,
    Number,
    Text(String),
    Array,
    Object,
}

/// The model of a `JsonField`.
pub enum FieldKind {
    Null,
    Bool,
    Number,
    Text(Seq<char>),
    Array,
    Object,
}

impl View for JsonField {
    type V = FieldKind;

    open spec fn view(&self) -> FieldKind {
        match self {
            JsonField::Null => FieldKind::Null,
            JsonField::Bool => FieldKind::Bool,
            JsonField::Number => FieldKind::Number,
            JsonField::Text(s) => FieldKind::Text(s@),
            JsonField::Array => FieldKind::Array,
            JsonField::Object => FieldKind::Object,
        }
    }
}

/// The model of an optional member.
pub open spec fn opt_kind(field: Option<JsonField>) -> Option<FieldKind> {
    match field {
        Some(f) => Some(f@),
        None => None,
    }
}

/// What `serde_json` makes of a text.
pub uninterp spec fn json_reading(text: Seq<char>) -> Result<Value, serde_json::Error>;

/// The members of a JSON object; a value of another kind has none.
pub uninterp spec fn members(value: Value) -> Map<Seq<char>, FieldKind>;

/// Whether a `serde_json::Error` wraps an I/O error.
pub uninterp spec fn json_error_is_io(error: serde_json::Error) -> bool;

/// How a `serde_json::Error` that wraps no I/O error prints.
pub uninterp spec fn json_error_text(error: serde_json::Error) -> Seq<char>;

/// The member of `value` under `key`.
pub open spec fn member_of(value: Value, key: Seq<char>) -> Option<FieldKind> {
    if members(value).contains_key(key) {
        Some(members(value)[key])
    } else {
        None
    }
}

/// `serde_json::from_str` to a `Value`: it reads one JSON text, and the same
/// text is read in the same way each time. No I/O error can come of it.
#[verifier::external_body]
pub(crate) fn read_text(text: &str) -> (r: Result<Value, serde_json::Error>)
    ensures
        r == json_reading(text@),
        r matches Err(e) ==> !json_error_is_io(e),
{
    serde_json::from_str(text)
}

/// `serde_json::from_slice` to a `Value`: bytes in UTF-8 are read as their text
/// is, up to what an error holds, and other bytes are rejected.
#[verifier::external_body]
pub(crate) fn read_bytes(bytes: &[u8]) -> (r: Result<Value, serde_json::Error>)
    ensures
        !valid_utf8(bytes@) ==> r is Err,
        valid_utf8(bytes@) ==> (r is Ok) == (json_reading(decode_utf8(bytes@)) is Ok),
        valid_utf8(bytes@) && r is Ok ==> r == json_reading(decode_utf8(bytes@)),
{
    serde_json::from_slice(bytes)
}

/// `serde_json::Value::get` with a string: the member of an object under that
/// key, and none of a value of another kind.
#[verifier::external_body]
pub(crate) fn member(value: &Value, key: &str) -> (r: Option<JsonField>)
    ensures
        match r {
            Some(field) => members(*value).contains_key(key@) && field@ == members(*value)[key@],
            None => !members(*value).contains_key(key@),
        },
{
    match value.get(key) {
        None => None,
        Some(Value::Null) => Some(JsonField::Null),
        Some(Value::Bool(_)) => Some(JsonField::Bool),
        Some(Value::Number(_)) => Some(JsonField::Number),
        Some(Value::String(text)) => Some(JsonField::Text(text.clone())),
        Some(Value::Array(_)) => Some(JsonField::Array),
        Some(Value::Object(_)) => Some(JsonField::Object),
    }
}

/// `serde_json::Error::is_io`: whether the error wraps an I/O error.
#[verifier::external_body]
pub(crate) fn error_is_io(error: &serde_json::Error) -> (r: bool)
    ensures
        r == json_error_is_io(*error),
{
    error.is_io()
}

/// `Display` of `serde_json::Error`: the text that it prints. Of an error that
/// wraps an I/O error it prints that error, whose text can depend on the
/// operating system and its language, so nothing is said of it.
#[verifier::external_body]
pub(crate) fn error_text(error: &serde_json::Error) -> (r: String)
    ensures
        !json_error_is_io(*error) ==> r@ == json_error_text(*error),
{
    error.to_string()
}

/// The model of a member shows its kind and, of a string, the whole text.
pub proof fn members_show_their_text(field: JsonField, text: String)
    ensures
        opt_kind(Some(field)) == Some(field@),
        opt_kind(None) is None,
        JsonField::Text(text)@ == FieldKind::Text(text@),
        field is Text <==> field@ is Text,
        field is Number <==> field@ is Number,
        field is Null <==> field@ is Null,
        field is Bool <==> field@ is Bool,
        field is Array <==> field@ is Array,
        field is Object <==> field@ is Object,
{
}

} // verus!
