//! JSON-RPC messages: which of them are well formed, and which are requests.

use serde_json::Value;
use vstd::prelude::*;
use vstd::utf8::*;

use crate::error::HttpTransportError;
use crate::json;
use crate::json::{FieldKind, JsonField};

verus! {

/// The members of a message that decide what kind of message it is.
#[derive(Debug)]
pub struct Envelope {
    pub jsonrpc: Option<JsonField>,
    pub method: Option<JsonField>,
    pub id: Option<JsonField>,
}

/// The model of an `Envelope`.
pub struct EnvelopeView {
    pub jsonrpc: Option<FieldKind>,
    pub method: Option<FieldKind>,
    pub id: Option<FieldKind>,
}

impl View for Envelope {
    type V = EnvelopeView;

    open spec fn view(&self) -> EnvelopeView {
        EnvelopeView {
            jsonrpc: json::opt_kind(self.jsonrpc),
            method: json::opt_kind(self.method),
            id: json::opt_kind(self.id),
        }
    }
}

impl EnvelopeView {
    /// The version member is the string `2.0`.
    pub open spec fn version_ok(self) -> bool {
        self.jsonrpc == Some(FieldKind::Text("2.0"@))
    }

    /// The identifier, if there is one, is a string or a number.
    pub open spec fn id_ok(self) -> bool {
        self.id matches Some(k) ==> k is Text || k is Number
    }

    /// The message is a JSON-RPC 2.0 request or notification.
    pub open spec fn well_formed(self) -> bool {
        &&& self.version_ok()
        &&& self.method matches Some(k) && k is Text
        &&& self.id_ok()
    }

    /// What is wrong with the message: the first fault, in the order version,
    /// method, identifier.
    pub open spec fn fault(self) -> Option<Seq<char>> {
        if !self.version_ok() {
            Some("Missing or invalid jsonrpc version"@)
        } else if self.method is None {
            Some("Missing method field"@)
        } else if !(self.method->0 is Text) {
            Some("Method must be a string"@)
        } else if !self.id_ok() {
            Some("ID must be a string or number"@)
        } else {
            None
        }
    }

    /// The message expects a response: it has an identifier and a method.
    pub open spec fn is_request(self) -> bool {
        self.id is Some && self.method is Some
    }
}

/// The envelope of a JSON value.
pub open spec fn envelope_of(value: Value) -> EnvelopeView {
    EnvelopeView {
        jsonrpc: json::member_of(value, "jsonrpc"@),
        method: json::member_of(value, "method"@),
        id: json::member_of(value, "id"@),
    }
}

/// Whether bytes are the JSON text of a request.
pub open spec fn request_bytes(bytes: Seq<u8>) -> bool {
    valid_utf8(bytes) && match json::json_reading(decode_utf8(bytes)) {
        Ok(value) => envelope_of(value).is_request(),
        Err(_) => false,
    }
}

impl Envelope {
    /// Reads the deciding members of a JSON value.
    pub fn of(value: &Value) -> (r: Self)
        ensures
            r@ == envelope_of(*value),
    {
        Envelope {
            jsonrpc: json::member(value, "jsonrpc"),
            method: json::member(value, "method"),
            id: json::member(value, "id"),
        }
    }

    /// Checks the basic rules of JSON-RPC 2.0.
    pub fn check(&self) -> (r: Result<(), HttpTransportError>)
        ensures
            match self@.fault() {
                None => r is Ok,
                Some(fault) => r matches Err(HttpTransportError::JsonRpcValidationFailed(t)) && t@
                    == fault,
            },
    {
        let version_ok = match &self.jsonrpc {
            Some(JsonField::Text(version)) => *version == "2.0".to_string(),
            _ => false,
        };
        if !version_ok {
            return Err(
                HttpTransportError::JsonRpcValidationFailed(
                    "Missing or invalid jsonrpc version".to_string(),
                ),
            );
        }
        match &self.method {
            None => {
                return Err(
                    HttpTransportError::JsonRpcValidationFailed("Missing method field".to_string()),
                );
            },
            Some(JsonField::Text(_)) => {},
            Some(_) => {
                return Err(
                    HttpTransportError::JsonRpcValidationFailed(
                        "Method must be a string".to_string(),
                    ),
                );
            },
        }
        match &self.id {
            None | Some(JsonField::Text(_)) | Some(JsonField::Number) => Ok(()),
            Some(_) => Err(
                HttpTransportError::JsonRpcValidationFailed(
                    "ID must be a string or number".to_string(),
                ),
            ),
        }
    }

    /// Whether the message has both an identifier and a method.
    pub fn is_request(&self) -> (r: bool)
        ensures
            r == self@.is_request(),
    {
        self.id.is_some() && self.method.is_some()
    }
}

/// What checking a JSON text must return. The error of a text that is not JSON
/// comes down to no I/O error.
pub open spec fn checked(payload: Seq<char>, r: Result<(), HttpTransportError>) -> bool {
    match json::json_reading(payload) {
        Err(e) => !json::json_error_is_io(e) && r == Err::<(), HttpTransportError>(
            HttpTransportError::JsonParseError(e),
        ),
        Ok(value) => match envelope_of(value).fault() {
            None => r is Ok,
            Some(fault) => r matches Err(HttpTransportError::JsonRpcValidationFailed(t)) && t@
                == fault,
        },
    }
}

/// A message has a fault exactly if it is not well formed.
pub proof fn fault_free_means_well_formed(envelope: EnvelopeView)
    ensures
        envelope.fault() is None <==> envelope.well_formed(),
{
}

/// Of the messages that pass the check, the requests are exactly those with an
/// identifier; the others are notifications.
pub proof fn valid_message_is_request_iff_it_has_an_id(payload: Seq<char>)
    requires
        checked(payload, Ok(())),
    ensures
        json::json_reading(payload) is Ok,
        request_bytes(encode_utf8(payload)) <==> envelope_of(
            json::json_reading(payload)->Ok_0,
        ).id is Some,
{
    encode_utf8_valid_utf8(payload);
    encode_utf8_decode_utf8(payload);
}

/// What is not JSON is no request, and never passes the check.
pub proof fn malformed_message_is_no_request(payload: Seq<char>)
    requires
        json::json_reading(payload) is Err,
    ensures
        !request_bytes(encode_utf8(payload)),
        !checked(payload, Ok(())),
{
    encode_utf8_valid_utf8(payload);
    encode_utf8_decode_utf8(payload);
}

/// A JSON message is a request exactly if it has a member `id` and a member
/// `method`, whatever they are and whatever else it has.
pub proof fn request_has_id_and_method(payload: Seq<char>, value: Value)
    requires
        json::json_reading(payload) == Ok::<Value, serde_json::Error>(value),
    ensures
        request_bytes(encode_utf8(payload)) <==> json::members(value).contains_key("id"@)
            && json::members(value).contains_key("method"@),
{
    encode_utf8_valid_utf8(payload);
    encode_utf8_decode_utf8(payload);
}

/// Bytes that are no text are no request.
pub proof fn request_is_text(bytes: Seq<u8>)
    requires
        request_bytes(bytes),
    ensures
        valid_utf8(bytes),
        json::json_reading(decode_utf8(bytes)) is Ok,
{
}

/// Each part of an envelope is the member of the value under that very key,
/// whatever other members there are.
pub proof fn envelope_holds_the_members(value: Value)
    ensures
        ({
            let m = json::members(value);
            let e = envelope_of(value);
            &&& e.jsonrpc is Some <==> m.contains_key("jsonrpc"@)
            &&& e.jsonrpc is Some ==> e.jsonrpc->0 == m["jsonrpc"@]
            &&& e.method is Some <==> m.contains_key("method"@)
            &&& e.method is Some ==> e.method->0 == m["method"@]
            &&& e.id is Some <==> m.contains_key("id"@)
            &&& e.id is Some ==> e.id->0 == m["id"@]
        }),
{
}

/// A text passes the check exactly if it is JSON with the version `2.0`, a
/// method that is a string, and an identifier, if any, that is a string or a
/// number.
pub proof fn check_accepts_the_rules(payload: Seq<char>)
    ensures
        checked(payload, Ok(())) <==> json::json_reading(payload) is Ok && {
            let m = json::members(json::json_reading(payload)->Ok_0);
            &&& m.contains_key("jsonrpc"@) && m["jsonrpc"@] == FieldKind::Text("2.0"@)
            &&& m.contains_key("method"@) && m["method"@] is Text
            &&& m.contains_key("id"@) ==> m["id"@] is Text || m["id"@] is Number
        },
{
}

/// The error is the validation error with this text.
pub open spec fn refused_with(r: Result<(), HttpTransportError>, text: Seq<char>) -> bool {
    r matches Err(HttpTransportError::JsonRpcValidationFailed(t)) && t@ == text
}

/// Of a JSON text the check names the first fault in the order version, method,
/// kind of the method, identifier, and refuses for nothing else.
pub proof fn check_names_the_first_fault(
    payload: Seq<char>,
    value: Value,
    r: Result<(), HttpTransportError>,
)
    requires
        json::json_reading(payload) == Ok::<Value, serde_json::Error>(value),
        checked(payload, r),
    ensures
        ({
            let m = json::members(value);
            if !m.contains_key("jsonrpc"@) || m["jsonrpc"@] != FieldKind::Text("2.0"@) {
                refused_with(r, "Missing or invalid jsonrpc version"@)
            } else if !m.contains_key("method"@) {
                refused_with(r, "Missing method field"@)
            } else if !(m["method"@] is Text) {
                refused_with(r, "Method must be a string"@)
            } else if m.contains_key("id"@) && !(m["id"@] is Text) && !(m["id"@] is Number) {
                refused_with(r, "ID must be a string or number"@)
            } else {
                r is Ok
            }
        }),
{
}

/// Of a text that is no JSON the check returns the error of reading it.
pub proof fn check_returns_the_reading_error(
    payload: Seq<char>,
    error: serde_json::Error,
    r: Result<(), HttpTransportError>,
)
    requires
        json::json_reading(payload) == Err::<Value, serde_json::Error>(error),
        checked(payload, r),
    ensures
        r matches Err(HttpTransportError::JsonParseError(e)) && e == error,
{
}

} // verus!
