//! The parts of the `http` crate that requests are built with and responses
//! are read with.

use http::header::{HeaderMap, HeaderValue};
use http::request::Builder;
use http::{Request, StatusCode};
use vstd::prelude::*;
use vstd::utf8::*;

verus! {

/// `http::request::Builder`.
#[verifier::external_type_specification]
#[verifier::external_body]
pub struct ExBuilder(http::request::Builder);

/// `http::Request`.
#[verifier::external_type_specification]
#[verifier::external_body]
#[verifier::reject_recursive_types(T)]
pub struct ExRequest<T>(http::Request<T>);

/// `http::Error`.
#[verifier::external_type_specification]
#[verifier::external_body]
pub struct ExHttpError(http::Error);

/// `http::StatusCode`.
#[verifier::external_type_specification]
#[verifier::external_body]
pub struct ExStatusCode(http::StatusCode);

/// `http::HeaderMap`.
#[verifier::external_type_specification]
#[verifier::external_body]
#[verifier::reject_recursive_types(T)]
pub struct ExHeaderMap<T>(http::HeaderMap<T>);

/// `http::HeaderValue`.
#[verifier::external_type_specification]
#[verifier::external_body]
pub struct ExHeaderValue(http::HeaderValue);

/// Header fields: the values of each name, in order, under the name in lower
/// case.
pub type Fields = Map<Seq<char>, Seq<Seq<u8>>>;

/// What a request says before its body.
#[verifier::ext_equal]
pub struct RequestHead {
    pub method: Seq<char>,
    pub uri: Seq<char>,
    pub fields: Fields,
}

/// `c` in lower case, if it is an ASCII letter.
pub open spec fn lower_char(c: char) -> char {
    if 'A' <= c <= 'Z' {
        (c as u32 + 32) as char
    } else {
        c
    }
}

/// `s` with its ASCII letters in lower case.
pub open spec fn lower(s: Seq<char>) -> Seq<char> {
    s.map_values(|c: char| lower_char(c))
}

/// A header name of ASCII letters, digits and hyphens, of at most 64.
pub open spec fn plain_name(name: Seq<char>) -> bool {
    &&& 0 < name.len() <= 64
    &&& forall|i: int|
        0 <= i < name.len() ==> {
            let c = #[trigger] name[i];
            'a' <= c <= 'z' || 'A' <= c <= 'Z' || '0' <= c <= '9' || c == '-'
        }
}

/// The bytes that a header value may hold: no control byte but the tab.
pub open spec fn field_value_ok(value: Seq<u8>) -> bool {
    forall|i: int|
        0 <= i < value.len() ==> {
            let b = #[trigger] value[i];
            b >= 32 && b != 127 || b == 9
        }
}

/// Bytes that are visible ASCII characters, spaces or tabs.
pub open spec fn visible(value: Seq<u8>) -> bool {
    forall|i: int|
        0 <= i < value.len() ==> {
            let b = #[trigger] value[i];
            32 <= b < 127 || b == 9
        }
}

/// `fields` with one more value under `name`, behind those it has.
pub open spec fn appended(fields: Fields, name: Seq<char>, value: Seq<u8>) -> Fields {
    if fields.contains_key(name) {
        fields.insert(name, fields[name].push(value))
    } else {
        fields.insert(name, seq![value])
    }
}

/// What a new builder has collected: `GET /` without header fields.
pub open spec fn fresh_state() -> Result<RequestHead, Seq<char>> {
    Ok(RequestHead { method: "GET"@, uri: "/"@, fields: Map::empty() })
}

/// What a builder makes of a header field with the given value.
pub open spec fn with_field(
    state: Result<RequestHead, Seq<char>>,
    name: Seq<char>,
    value: Seq<u8>,
) -> Result<RequestHead, Seq<char>> {
    match state {
        Ok(head) => if field_value_ok(value) {
            Ok(RequestHead { fields: appended(head.fields, name, value), ..head })
        } else {
            Err("failed to parse header value"@)
        },
        Err(text) => Err(text),
    }
}

/// What `http::Uri` makes of a text: how it prints the URI, or the message of
/// the error with which it rejects the text.
pub uninterp spec fn uri_reading(text: Seq<char>) -> Result<Seq<char>, Seq<char>>;

/// What a builder has collected: a request's head, or the message of the
/// first error.
pub uninterp spec fn builder_state(builder: Builder) -> Result<RequestHead, Seq<char>>;

/// The head of a request.
pub uninterp spec fn request_head(request: Request<Vec<u8>>) -> RequestHead;

/// The body of a request.
pub uninterp spec fn request_body(request: Request<Vec<u8>>) -> Seq<u8>;

/// How an `http::Error` prints.
pub uninterp spec fn http_error_text(error: http::Error) -> Seq<char>;

/// The header fields that a map holds.
pub uninterp spec fn map_fields(map: HeaderMap<HeaderValue>) -> Fields;

/// The bytes of a header value.
pub uninterp spec fn value_bytes(value: HeaderValue) -> Seq<u8>;

/// The number of a status code.
pub uninterp spec fn status_number(status: StatusCode) -> u16;

/// How the status code of a number prints.
pub uninterp spec fn status_line(number: u16) -> Seq<char>;

/// `http::Request::builder`: a builder for `GET /` without header fields.
#[verifier::external_body]
pub(crate) fn new_builder() -> (r: Builder)
    ensures
        builder_state(r) == fresh_state(),
{
    Request::builder()
}

/// `http::request::Builder::method`, with one of two method names: it sets the
/// method, and keeps an earlier error.
#[verifier::external_body]
pub(crate) fn set_method(builder: Builder, method: &str) -> (r: Builder)
    requires
        method@ == "GET"@ || method@ == "POST"@,
    ensures
        builder_state(r) == match builder_state(builder) {
            Ok(head) => Ok(RequestHead { method: method@, ..head }),
            Err(text) => Err(text),
        },
{
    builder.method(method)
}

/// `http::request::Builder::uri`: it reads the text as a URI and sets it, or
/// takes the reading's error; an earlier error stays.
#[verifier::external_body]
pub(crate) fn set_uri(builder: Builder, uri: &str) -> (r: Builder)
    ensures
        builder_state(r) == match builder_state(builder) {
            Ok(head) => match uri_reading(uri@) {
                Ok(u) => Ok(RequestHead { uri: u, ..head }),
                Err(text) => Err(text),
            },
            Err(text) => Err(text),
        },
{
    builder.uri(uri)
}

/// `http::request::Builder::header`, with a plain name and on a builder with
/// few names: it appends the value under the name in lower case, or takes the
/// error of a value with a control byte in it; an earlier error stays.
#[verifier::external_body]
pub(crate) fn add_header(builder: Builder, name: &str, value: &str) -> (r: Builder)
    requires
        plain_name(name@),
        builder_state(builder) matches Ok(head) ==> head.fields.dom().finite()
            && head.fields.dom().len() < 1000,
    ensures
        builder_state(r) == with_field(builder_state(builder), lower(name@), encode_utf8(value@)),
{
    builder.header(name, value)
}

/// `http::request::Builder::body`: the request with what was collected, or the
/// first error.
#[verifier::external_body]
pub(crate) fn set_body(builder: Builder, body: Vec<u8>) -> (r: Result<Request<Vec<u8>>, http::Error>)
    ensures
        match builder_state(builder) {
            Ok(head) => r matches Ok(q) && request_head(q) == head && request_body(q) == body@,
            Err(text) => r matches Err(e) && http_error_text(e) == text,
        },
{
    builder.body(body)
}

/// `Display` of `http::Error`: the text that it prints.
#[verifier::external_body]
pub(crate) fn error_text(error: &http::Error) -> (r: String)
    ensures
        r@ == http_error_text(*error),
{
    error.to_string()
}

/// `http::HeaderMap::get`, with a plain name: the first value under the name,
/// whatever the case of its letters.
#[verifier::external_body]
pub(crate) fn first_value<'a>(map: &'a HeaderMap<HeaderValue>, name: &str) -> (r: Option<
    &'a HeaderValue,
>)
    requires
        plain_name(name@),
    ensures
        match r {
            Some(v) => map_fields(*map).contains_key(lower(name@)) && map_fields(*map)[lower(
                name@,
            )].len() > 0 && value_bytes(*v) == map_fields(*map)[lower(name@)][0],
            None => !map_fields(*map).contains_key(lower(name@)),
        },
{
    map.get(name)
}

/// `http::HeaderValue::to_str`: the value as text, if it is visible ASCII.
#[verifier::external_body]
pub(crate) fn value_text(value: &HeaderValue) -> (r: Option<&str>)
    ensures
        match r {
            Some(s) => visible(value_bytes(*value)) && encode_utf8(s@) == value_bytes(*value),
            None => !visible(value_bytes(*value)),
        },
{
    value.to_str().ok()
}

/// `http::StatusCode::as_u16`: the number, of three digits.
#[verifier::external_body]
pub(crate) fn number_of(status: &StatusCode) -> (r: u16)
    ensures
        r == status_number(*status),
        100 <= r < 1000,
{
    status.as_u16()
}

/// `http::StatusCode::is_success`: whether the number is from 200 to 299.
#[verifier::external_body]
pub(crate) fn is_success(status: &StatusCode) -> (r: bool)
    ensures
        r == (200 <= status_number(*status) < 300),
{
    status.is_success()
}

/// `Display` of `http::StatusCode`: the number and the reason phrase.
#[verifier::external_body]
pub(crate) fn status_text(status: &StatusCode) -> (r: String)
    ensures
        r@ == status_line(status_number(*status)),
{
    status.to_string()
}

/// The text under `name`, if there is a value of visible ASCII first there.
pub open spec fn field_text(fields: Fields, name: Seq<char>) -> Option<Seq<char>> {
    if fields.contains_key(name) && visible(fields[name][0]) {
        Some(decode_utf8(fields[name][0]))
    } else {
        None
    }
}

/// The text of the first header value under `name`, if that is visible ASCII.
pub fn header_text(map: &HeaderMap, name: &str) -> (r: Option<String>)
    requires
        plain_name(name@),
    ensures
        crate::text::opt_text(r) == field_text(map_fields(*map), lower(name@)),
{
    match first_value(map, name) {
        Some(value) => match value_text(value) {
            Some(s) => {
                proof {
                    encode_utf8_decode_utf8(s@);
                }
                Some(s.to_string())
            },
            None => None,
        },
        None => None,
    }
}

/// Text of printable ASCII characters is an acceptable header value.
pub proof fn printable_is_a_field_value(s: Seq<char>)
    requires
        forall|i: int| 0 <= i < s.len() ==> ' ' <= #[trigger] s[i] <= '~',
    ensures
        field_value_ok(encode_utf8(s)),
{
    assert forall|i: int| 0 <= i < s.len() implies '\0' <= #[trigger] s[i] <= '\u{7f}' by {}
    is_ascii_chars_encode_utf8(s);
    assert forall|i: int| 0 <= i < encode_utf8(s).len() implies {
        let b = #[trigger] encode_utf8(s)[i];
        b >= 32 && b != 127 || b == 9
    } by {
        let c = s[i];
        assert(' ' <= c <= '~');
        assert(c as u8 == encode_utf8(s)[i]);
    }
}

/// Text of visible ASCII is an acceptable header value.
pub proof fn visible_text_is_a_field_value(bytes: Seq<u8>)
    requires
        visible(bytes),
    ensures
        field_value_ok(bytes),
        valid_utf8(bytes),
        encode_utf8(decode_utf8(bytes)) == bytes,
{
    let chars = Seq::new(bytes.len(), |i: int| bytes[i] as char);
    assert forall|i: int| 0 <= i < chars.len() implies '\0' <= #[trigger] chars[i] <= '\u{7f}' by {
        assert(32 <= bytes[i] < 127 || bytes[i] == 9);
    }
    is_ascii_chars_encode_utf8(chars);
    assert(encode_utf8(chars) =~= bytes);
    encode_utf8_valid_utf8(chars);
    encode_utf8_decode_utf8(chars);
}

/// A first value of visible ASCII is read whole, whatever its length, and the
/// text that is read encodes to that value; there is no text where the name is
/// missing or its first value is anything else.
pub proof fn header_is_read_whole(fields: Fields, name: Seq<char>)
    ensures
        fields.contains_key(name) && visible(fields[name][0]) ==> {
            &&& field_text(fields, name) == Some(decode_utf8(fields[name][0]))
            &&& encode_utf8(field_text(fields, name)->0) == fields[name][0]
        },
        !fields.contains_key(name) ==> field_text(fields, name) is None,
        !visible(fields[name][0]) ==> field_text(fields, name) is None,
{
    if visible(fields[name][0]) {
        visible_text_is_a_field_value(fields[name][0]);
    }
}

} // verus!
