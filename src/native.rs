//! Declarations of the outside error types, and the calls made on them.

use vstd::prelude::*;

verus! {

/// The reasons for which `url` refuses a URL; each variant carries no data.
#[verifier::external_type_specification]
pub struct ExParseError(url::ParseError);

/// The categories of I/O failure that std distinguishes.
#[verifier::external_type_specification]
pub struct ExIoErrorKind(std::io::ErrorKind);

/// An I/O failure of std.
#[verifier::external_type_specification]
#[verifier::external_body]
pub struct ExIoError(std::io::Error);

/// A failure of hyper's HTTP transport.
#[verifier::external_type_specification]
#[verifier::external_body]
pub struct ExHyperError(hyper::Error);

/// Relies on std::io::Error::kind for the category that an I/O failure reports.
pub assume_specification[ std::io::Error::kind ](e: &std::io::Error) -> std::io::ErrorKind;

/// Relies on hyper::Error::is_parse: whether the failure is an HTTP parse error.
pub assume_specification[ hyper::Error::is_parse ](e: &hyper::Error) -> bool;

/// Relies on hyper::Error::is_user: whether user code caused the failure.
pub assume_specification[ hyper::Error::is_user ](e: &hyper::Error) -> bool;

/// Relies on hyper::Error::is_canceled: whether a request was canceled.
pub assume_specification[ hyper::Error::is_canceled ](e: &hyper::Error) -> bool;

/// Relies on hyper::Error::is_closed: whether a channel was closed.
pub assume_specification[ hyper::Error::is_closed ](e: &hyper::Error) -> bool;

/// The text that `url` displays for each reason.
pub open spec fn url_text_spec(e: url::ParseError) -> Seq<char> {
    match e {
        url::ParseError::EmptyHost => "empty host"@,
        url::ParseError::IdnaError => "invalid international domain name"@,
        url::ParseError::InvalidPort => "invalid port number"@,
        url::ParseError::InvalidIpv4Address => "invalid IPv4 address"@,
        url::ParseError::InvalidIpv6Address => "invalid IPv6 address"@,
        url::ParseError::InvalidDomainCharacter => "invalid domain character"@,
        url::ParseError::RelativeUrlWithoutBase => "relative URL without a base"@,
        url::ParseError::RelativeUrlWithCannotBeABaseBase => "relative URL with a cannot-be-a-base base"@,
        url::ParseError::SetHostOnCannotBeABaseUrl => "a cannot-be-a-base URL doesn’t have a host to set"@,
        url::ParseError::Overflow => "URLs more than 4 GB are not supported"@,
        _ => Seq::empty(),
    }
}

/// Relies on the Display impl of url::ParseError, which writes a fixed text
/// for each reason.
#[verifier::external_body]
pub(crate) fn url_text(e: &url::ParseError) -> (r: String)
    ensures
        r@ == url_text_spec(*e),
{
    e.to_string()
}

/// Relies on the Display impl of std::io::Error for its text.
#[verifier::external_body]
pub(crate) fn io_text(e: &std::io::Error) -> String {
    e.to_string()
}

/// Relies on the Display impl of hyper::Error for its text.
#[verifier::external_body]
pub(crate) fn http_text(e: &hyper::Error) -> String {
    e.to_string()
}

/// Relies on std::error::Error::description as std::io::Error implements it.
#[verifier::external_body]
#[allow(deprecated)]
pub(crate) fn io_description(e: &std::io::Error) -> &str {
    std::error::Error::description(e)
}

/// Relies on std::error::Error::description as url::ParseError has it.
#[verifier::external_body]
#[allow(deprecated)]
pub(crate) fn url_description(e: &url::ParseError) -> &str {
    std::error::Error::description(e)
}

/// Relies on std::error::Error::description as hyper::Error implements it.
#[verifier::external_body]
#[allow(deprecated)]
pub(crate) fn http_description(e: &hyper::Error) -> &str {
    std::error::Error::description(e)
}

} // verus!
