use vstd::prelude::*;
use vstd::std_specs::convert::FromSpecImpl;

verus! {

#[verifier::external_type_specification]
#[verifier::external_body]
pub struct ExReqwestError(reqwest::Error);

#[verifier::external_type_specification]
#[verifier::external_body]
pub struct ExIoError(std::io::Error);

/// Why a text is not an absolute URL: one variant for each way in which the
/// URL parser refuses its input.
#[derive(Clone, Copy, Debug, PartialEq, Eq, Structural)]
pub enum UrlParseError {
    EmptyHost,
    IdnaError,
    InvalidPort,
    InvalidIpv4Address,
    InvalidIpv6Address,
    InvalidDomainCharacter,
    RelativeUrlWithoutBase,
    RelativeUrlWithCannotBeABaseBase,
    SetHostOnCannotBeABaseUrl,
    Overflow,
}

/// Everything that can go wrong while fetching a report.
#[derive(Debug)]
pub enum ErrorKind {
    /// No cache directory could be found for this user.
    NoProjectDir,
    /// The HTTP client failed.
    ReqwestError(reqwest::Error),
    /// The cache failed; its message.
    StdError(String),
    /// Reading or writing a file failed.
    StdIoError(std::io::Error),
    /// The URL could not be parsed.
    UrlError(UrlParseError),
}

impl From<reqwest::Error> for ErrorKind {
    fn from(e: reqwest::Error) -> (r: Self) {
        ErrorKind::ReqwestError(e)
    }
}

impl FromSpecImpl<reqwest::Error> for ErrorKind {
    open spec fn obeys_from_spec() -> bool {
        true
    }

    open spec fn from_spec(v: reqwest::Error) -> Self {
        ErrorKind::ReqwestError(v)
    }
}

impl From<std::io::Error> for ErrorKind {
    fn from(e: std::io::Error) -> (r: Self) {
        ErrorKind::StdIoError(e)
    }
}

impl FromSpecImpl<std::io::Error> for ErrorKind {
    open spec fn obeys_from_spec() -> bool {
        true
    }

    open spec fn from_spec(v: std::io::Error) -> Self {
        ErrorKind::StdIoError(v)
    }
}

impl From<UrlParseError> for ErrorKind {
    fn from(e: UrlParseError) -> (r: Self) {
        ErrorKind::UrlError(e)
    }
}

impl FromSpecImpl<UrlParseError> for ErrorKind {
    open spec fn obeys_from_spec() -> bool {
        true
    }

    open spec fn from_spec(v: UrlParseError) -> Self {
        ErrorKind::UrlError(v)
    }
}

} // verus!
