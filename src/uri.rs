use url::{ParseError, Url};
use vstd::prelude::*;

verus! {

/// An absolute URL, carried through to the host.
#[verifier::external_type_specification]
#[verifier::external_body]
pub struct ExUrl(url::Url);

/// Why a text could not be read as a URL.
#[verifier::external_type_specification]
#[verifier::external_body]
pub struct ExParseError(url::ParseError);

/// What `Url::parse` gives for a text: the absolute URL it denotes, or why
/// there is none.
pub uninterp spec fn parsed_url(text: Seq<char>) -> Result<Url, ParseError>;

/// What `Url::join` gives: `input` read as a reference relative to `base`.
pub uninterp spec fn joined_url(base: Url, input: Seq<char>) -> Result<Url, ParseError>;

/// The message that the `Display` impl of `ParseError` writes.
pub uninterp spec fn parse_error_text(e: ParseError) -> Seq<char>;

/// Relies on url::Url::parse, to read an absolute URL.
#[verifier::external_body]
pub(crate) fn parse_url(text: &str) -> (r: Result<Url, ParseError>)
    ensures
        r == parsed_url(text@),
{
    Url::parse(text)
}

/// Relies on url::Url::join, to resolve a relative reference against a base.
#[verifier::external_body]
pub(crate) fn join_url(base: &Url, input: &str) -> (r: Result<Url, ParseError>)
    ensures
        r == joined_url(*base, input@),
{
    base.join(input)
}

/// Relies on the `Display` impl of url::ParseError, for the error's message.
#[verifier::external_body]
pub(crate) fn describe_parse_error(e: &ParseError) -> (r: String)
    ensures
        r@ == parse_error_text(*e),
{
    e.to_string()
}

} // verus!
