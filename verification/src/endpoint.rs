//! The alarm endpoint: an absolute URL, parsed and held by the `url` crate.
//!
//! The items of this file are taken on trust: they state what the `url` crate
//! does, and nothing here is proved about them.

use url::{ParseError, Url};
use vstd::prelude::*;

verus! {

/// `url::Url`, a parsed URL record. Opaque to the verifier: a value of it is
/// only carried from where it was parsed to where the request is made.
#[verifier::external_type_specification]
#[verifier::external_body]
pub struct ExUrl(Url);

/// `url::ParseError`, the reason why a text was refused as a URL.
#[verifier::external_type_specification]
#[verifier::external_body]
pub struct ExParseError(ParseError);

/// What `url::Url::parse` makes of a text: the URL it yields, or `None`
/// where it refuses the text. The parser reads nothing but its input, so the
/// same text always has the same outcome.
pub uninterp spec fn parsed_url(text: Seq<char>) -> Option<Url>;

/// `url::Url::parse`, which parses an absolute URL and returns an error for
/// any text that is not one. The contract only names the outcome.
pub assume_specification[ Url::parse ](input: &str) -> (outcome: Result<Url, ParseError>)
    ensures
        outcome.ok() == parsed_url(input@),
;

/// `Clone::clone` of `url::Url`, which is derived: the copy is a URL record
/// with the same fields.
pub assume_specification[ <Url as Clone>::clone ](url: &Url) -> (copy: Url)
    ensures
        copy == *url,
;

} // verus!
