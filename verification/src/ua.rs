use vstd::prelude::*;
use reqwest::Url;
use reqwest::UrlError as E;
use crate::err::{ErrorKind, UrlParseError};

verus! {

/// What the URL parser makes of a text: `None` where it parses as an
/// absolute URL, else the reason why it does not.
pub uninterp spec fn url_parse_error(s: Seq<char>) -> Option<UrlParseError>;

/// The text of the URL that the parser makes of a text, as the parser
/// serialises it; meaningful where `url_parse_error` of the text is `None`.
pub uninterp spec fn url_serialization(s: Seq<char>) -> Seq<char>;

/// Calls `reqwest::Url::parse` (that is `url::Url::parse`), which parses an
/// absolute URL, and hands back the parsed URL as its serialised text.
/// Claimed: it succeeds exactly where `url_parse_error` of the text is `None`,
/// then with the text `url_serialization` of the input, and otherwise fails
/// with that reason (the parser's error variant, carried over one for one).
#[verifier::external_body]
fn url_parse(input: &str) -> (r: Result<String, UrlParseError>)
    ensures
        r is Ok <==> url_parse_error(input@) is None,
        r matches Ok(t) ==> t@ == url_serialization(input@),
        r matches Err(e) ==> url_parse_error(input@) == Some(e),
{
    match Url::parse(input) {
        Ok(u) => Ok(u.into_string()),
        Err(E::EmptyHost) => Err(UrlParseError::EmptyHost),
        Err(E::IdnaError) => Err(UrlParseError::IdnaError),
        Err(E::InvalidPort) => Err(UrlParseError::InvalidPort),
        Err(E::InvalidIpv4Address) => Err(UrlParseError::InvalidIpv4Address),
        Err(E::InvalidIpv6Address) => Err(UrlParseError::InvalidIpv6Address),
        Err(E::InvalidDomainCharacter) => Err(UrlParseError::InvalidDomainCharacter),
        Err(E::RelativeUrlWithoutBase) => Err(UrlParseError::RelativeUrlWithoutBase),
        Err(E::RelativeUrlWithCannotBeABaseBase) => Err(UrlParseError::RelativeUrlWithCannotBeABaseBase),
        Err(E::SetHostOnCannotBeABaseUrl) => Err(UrlParseError::SetHostOnCannotBeABaseUrl),
        Err(E::Overflow) => Err(UrlParseError::Overflow),
    }
}

/// Parses the URL of a report to fetch: where the text is an absolute URL,
/// `Ok` with the parsed URL as text, else `ErrorKind::UrlError` with the
/// parser's reason.
pub fn parse_url(u: &str) -> (r: Result<String, ErrorKind>)
    ensures
        r is Ok <==> url_parse_error(u@) is None,
        r matches Ok(t) ==> t@ == url_serialization(u@),
        r matches Err(e) ==> e == ErrorKind::UrlError(url_parse_error(u@).unwrap()),
{
    match url_parse(u) {
        Ok(url) => Ok(url),
        Err(e) => Err(ErrorKind::from(e)),
    }
}

} // verus!
