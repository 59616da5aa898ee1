//! The parts of the `url` crate that server addresses are read with.

use url::{ParseError, Url};
use vstd::prelude::*;

verus! {

/// `url::Url`.
#[verifier::external_type_specification]
#[verifier::external_body]
pub struct ExUrl(url::Url);

/// `url::ParseError`.
#[verifier::external_type_specification]
#[verifier::external_body]
pub struct ExParseError(url::ParseError);

/// What `url::Url::parse` makes of a text.
pub uninterp spec fn url_reading(text: Seq<char>) -> Result<Url, ParseError>;

/// The serialization of a URL.
pub uninterp spec fn url_text(url: Url) -> Seq<char>;

/// How a `url::ParseError` prints.
pub uninterp spec fn url_error_text(error: ParseError) -> Seq<char>;

/// `url::Url::parse`: it reads an absolute URL, and the same text is read in
/// the same way each time.
pub assume_specification[ Url::parse ](input: &str) -> (r: Result<Url, ParseError>)
    ensures
        r == url_reading(input@),
;

/// `Clone` of `url::Url`: the same URL.
pub assume_specification[ <Url as Clone>::clone ](url: &Url) -> (r: Url)
    ensures
        r == *url,
;

/// `url::Url::as_str`: the serialization.
pub assume_specification[ Url::as_str ](url: &Url) -> (r: &str)
    ensures
        r@ == url_text(*url),
;

/// `Display` of `url::ParseError`: the text that it prints.
#[verifier::external_body]
pub(crate) fn error_text(error: &ParseError) -> (r: String)
    ensures
        r@ == url_error_text(*error),
{
    error.to_string()
}

} // verus!
