//! Addresses of the service: joining a path with the base address.

use url::ParseError;
use url::Url;
use vstd::prelude::*;
use crate::error::{outcome, ErrorKind, Failure};
use crate::item::TocItem;

verus! {

/// Base address of the service.
pub const BASE_URL_STR: &'static str = "https://www.gesetze-im-internet.de";

/// Path of the table of contents.
pub const TOC_ENDPOINT: &'static str = "/gii-toc.xml";

/// `url::ParseError`: why an address was rejected. Nothing is read off it.
#[verifier::external_type_specification]
#[verifier::external_body]
pub struct ExParseError(ParseError);

/// The absolute address that the parser of the crate `url` reads from
/// `input`, in the form in which it writes addresses; `None` where it rejects
/// `input`.
pub uninterp spec fn url_parse(input: Seq<char>) -> Option<Seq<char>>;

/// The absolute address that the crate `url` gives for `reference` seen from
/// the address `base`, in the form in which it writes addresses; `None`
/// where it rejects `base` as an absolute address, or `reference` from there.
pub uninterp spec fn url_join(base: Seq<char>, reference: Seq<char>) -> Option<Seq<char>>;

/// `url::Url::parse`, with the address written out as text. The result
/// depends on `input` alone.
#[verifier::external_body]
fn parse_url(input: &str) -> (r: Result<String, ParseError>)
    ensures
        match r {
            Ok(address) => url_parse(input@) == Some(address@),
            Err(_) => url_parse(input@) is None,
        },
{
    Url::parse(input).map(String::from)
}

/// `url::Url::join` on the address that `base` parses to, with the result
/// written out as text. The result depends on `base` and `reference` alone.
#[verifier::external_body]
fn join_url(base: &str, reference: &str) -> (r: Result<String, ParseError>)
    ensures
        match r {
            Ok(address) => url_join(base@, reference@) == Some(address@),
            Err(_) => url_join(base@, reference@) is None,
        },
{
    Url::parse(base)?.join(reference).map(String::from)
}

/// An address or `InvalidUrl`, given what the crate `url` made of the input.
pub open spec fn address_of(parsed: Option<Seq<char>>) -> Result<Seq<char>, Failure> {
    match parsed {
        Some(address) => Ok(address),
        None => Err(Failure::InvalidUrl),
    }
}

/// The absolute address of `path`, which may be relative or absolute, seen
/// from the absolute address `base`. Fails with `InvalidUrl` where the two
/// cannot be joined.
pub fn resolve(base: &str, path: &str) -> (r: Result<String, ErrorKind>)
    ensures
        outcome(r) == address_of(url_join(base@, path@)),
{
    match join_url(base, path) {
        Ok(address) => Ok(address),
        Err(_) => Err(ErrorKind::InvalidUrl),
    }
}

/// The address of the table of contents of the service at `base`.
pub fn toc_url(base: &str) -> (r: Result<String, ErrorKind>)
    ensures
        outcome(r) == address_of(url_join(base@, TOC_ENDPOINT@)),
{
    resolve(base, TOC_ENDPOINT)
}

impl TocItem {
    /// The link of this entry as an absolute address, or `InvalidUrl` where
    /// the link is none.
    pub fn url(&self) -> (r: Result<String, ErrorKind>)
        ensures
            outcome(r) == address_of(url_parse(self.link@)),
    {
        match parse_url(self.link.as_str()) {
            Ok(address) => Ok(address),
            Err(_) => Err(ErrorKind::InvalidUrl),
        }
    }
}

} // verus!
