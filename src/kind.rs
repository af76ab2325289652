//! The closed vocabulary of failure kinds, and the classification of each
//! native failure onto it.

use vstd::prelude::*;

verus! {

/// The kinds of failure that callers branch on.
#[derive(Clone, Copy, Debug, PartialEq, Eq, Structural, Hash)]
pub enum ErrorKind {
    String,
    NotFound,
    PermissionDenied,
    ConnectionRefused,
    ConnectionReset,
    ConnectionAborted,
    NotConnected,
    AddrInUse,
    AddrNotAvailable,
    BrokenPipe,
    AlreadyExists,
    WouldBlock,
    InvalidInput,
    InvalidData,
    TimedOut,
    Interrupted,
    WriteZero,
    Other,
    UnexpectedEof,
    EmptyHost,
    IdnaError,
    InvalidPort,
    InvalidIpv4Address,
    InvalidIpv6Address,
    InvalidDomainCharacter,
    RelativeUrlWithoutBase,
    RelativeUrlWithCannotBeABaseBase,
    SetHostOnCannotBeABaseUrl,
    Overflow,
    HttpUser,
    HttpClosed,
    HttpCanceled,
    HttpParse,
    HttpOther,
}

/// Whether an I/O category has a member of the same name among the kinds.
pub open spec fn io_kind_named(c: std::io::ErrorKind) -> bool {
    ||| c == std::io::ErrorKind::NotFound
    ||| c == std::io::ErrorKind::PermissionDenied
    ||| c == std::io::ErrorKind::ConnectionRefused
    ||| c == std::io::ErrorKind::ConnectionReset
    ||| c == std::io::ErrorKind::ConnectionAborted
    ||| c == std::io::ErrorKind::NotConnected
    ||| c == std::io::ErrorKind::AddrInUse
    ||| c == std::io::ErrorKind::AddrNotAvailable
    ||| c == std::io::ErrorKind::BrokenPipe
    ||| c == std::io::ErrorKind::AlreadyExists
    ||| c == std::io::ErrorKind::WouldBlock
    ||| c == std::io::ErrorKind::InvalidInput
    ||| c == std::io::ErrorKind::InvalidData
    ||| c == std::io::ErrorKind::TimedOut
    ||| c == std::io::ErrorKind::Interrupted
    ||| c == std::io::ErrorKind::WriteZero
    ||| c == std::io::ErrorKind::Other
    ||| c == std::io::ErrorKind::UnexpectedEof
}

/// The kind of an I/O failure: the member named as its category, and `Other`
/// for a category without a member of its own.
pub open spec fn io_kind_spec(c: std::io::ErrorKind) -> ErrorKind {
    match c {
        std::io::ErrorKind::NotFound => ErrorKind::NotFound,
        std::io::ErrorKind::PermissionDenied => ErrorKind::PermissionDenied,
        std::io::ErrorKind::ConnectionRefused => ErrorKind::ConnectionRefused,
        std::io::ErrorKind::ConnectionReset => ErrorKind::ConnectionReset,
        std::io::ErrorKind::ConnectionAborted => ErrorKind::ConnectionAborted,
        std::io::ErrorKind::NotConnected => ErrorKind::NotConnected,
        std::io::ErrorKind::AddrInUse => ErrorKind::AddrInUse,
        std::io::ErrorKind::AddrNotAvailable => ErrorKind::AddrNotAvailable,
        std::io::ErrorKind::BrokenPipe => ErrorKind::BrokenPipe,
        std::io::ErrorKind::AlreadyExists => ErrorKind::AlreadyExists,
        std::io::ErrorKind::WouldBlock => ErrorKind::WouldBlock,
        std::io::ErrorKind::InvalidInput => ErrorKind::InvalidInput,
        std::io::ErrorKind::InvalidData => ErrorKind::InvalidData,
        std::io::ErrorKind::TimedOut => ErrorKind::TimedOut,
        std::io::ErrorKind::Interrupted => ErrorKind::Interrupted,
        std::io::ErrorKind::WriteZero => ErrorKind::WriteZero,
        std::io::ErrorKind::Other => ErrorKind::Other,
        std::io::ErrorKind::UnexpectedEof => ErrorKind::UnexpectedEof,
        _ => ErrorKind::Other,
    }
}

/// Classifies an I/O failure by its category.
pub fn io_kind(c: std::io::ErrorKind) -> (r: ErrorKind)
    ensures
        r == io_kind_spec(c),
{
    match c {
        std::io::ErrorKind::NotFound => ErrorKind::NotFound,
        std::io::ErrorKind::PermissionDenied => ErrorKind::PermissionDenied,
        std::io::ErrorKind::ConnectionRefused => ErrorKind::ConnectionRefused,
        std::io::ErrorKind::ConnectionReset => ErrorKind::ConnectionReset,
        std::io::ErrorKind::ConnectionAborted => ErrorKind::ConnectionAborted,
        std::io::ErrorKind::NotConnected => ErrorKind::NotConnected,
        std::io::ErrorKind::AddrInUse => ErrorKind::AddrInUse,
        std::io::ErrorKind::AddrNotAvailable => ErrorKind::AddrNotAvailable,
        std::io::ErrorKind::BrokenPipe => ErrorKind::BrokenPipe,
        std::io::ErrorKind::AlreadyExists => ErrorKind::AlreadyExists,
        std::io::ErrorKind::WouldBlock => ErrorKind::WouldBlock,
        std::io::ErrorKind::InvalidInput => ErrorKind::InvalidInput,
        std::io::ErrorKind::InvalidData => ErrorKind::InvalidData,
        std::io::ErrorKind::TimedOut => ErrorKind::TimedOut,
        std::io::ErrorKind::Interrupted => ErrorKind::Interrupted,
        std::io::ErrorKind::WriteZero => ErrorKind::WriteZero,
        std::io::ErrorKind::Other => ErrorKind::Other,
        std::io::ErrorKind::UnexpectedEof => ErrorKind::UnexpectedEof,
        _ => ErrorKind::Other,
    }
}

/// The kind of a URL-parse failure: the member named as its reason.
pub open spec fn url_kind_spec(e: url::ParseError) -> ErrorKind {
    match e {
        url::ParseError::EmptyHost => ErrorKind::EmptyHost,
        url::ParseError::IdnaError => ErrorKind::IdnaError,
        url::ParseError::InvalidPort => ErrorKind::InvalidPort,
        url::ParseError::InvalidIpv4Address => ErrorKind::InvalidIpv4Address,
        url::ParseError::InvalidIpv6Address => ErrorKind::InvalidIpv6Address,
        url::ParseError::InvalidDomainCharacter => ErrorKind::InvalidDomainCharacter,
        url::ParseError::RelativeUrlWithoutBase => ErrorKind::RelativeUrlWithoutBase,
        url::ParseError::RelativeUrlWithCannotBeABaseBase => ErrorKind::RelativeUrlWithCannotBeABaseBase,
        url::ParseError::SetHostOnCannotBeABaseUrl => ErrorKind::SetHostOnCannotBeABaseUrl,
        url::ParseError::Overflow => ErrorKind::Overflow,
        // `url` keeps the right to add reasons; it has none beyond the above.
        _ => ErrorKind::Other,
    }
}

/// Classifies a URL-parse failure.
pub fn url_kind(e: &url::ParseError) -> (r: ErrorKind)
    ensures
        r == url_kind_spec(*e),
{
    match e {
        url::ParseError::EmptyHost => ErrorKind::EmptyHost,
        url::ParseError::IdnaError => ErrorKind::IdnaError,
        url::ParseError::InvalidPort => ErrorKind::InvalidPort,
        url::ParseError::InvalidIpv4Address => ErrorKind::InvalidIpv4Address,
        url::ParseError::InvalidIpv6Address => ErrorKind::InvalidIpv6Address,
        url::ParseError::InvalidDomainCharacter => ErrorKind::InvalidDomainCharacter,
        url::ParseError::RelativeUrlWithoutBase => ErrorKind::RelativeUrlWithoutBase,
        url::ParseError::RelativeUrlWithCannotBeABaseBase => ErrorKind::RelativeUrlWithCannotBeABaseBase,
        url::ParseError::SetHostOnCannotBeABaseUrl => ErrorKind::SetHostOnCannotBeABaseUrl,
        url::ParseError::Overflow => ErrorKind::Overflow,
        _ => ErrorKind::Other,
    }
}

/// What an HTTP transport failure reports of itself: whether it is a parse
/// failure, caused by the user, a cancellation, or a closed connection.
#[derive(Clone, Copy, Debug, PartialEq, Eq, Structural, Hash)]
pub struct Probes {
    pub parse: bool,
    pub user: bool,
    pub canceled: bool,
    pub closed: bool,
}

/// The kind of a transport failure: the first probe that holds, in the order
/// parse, user, canceled, closed, decides; with none, `HttpOther`.
pub open spec fn transport_kind_spec(p: Probes) -> ErrorKind {
    if p.parse {
        ErrorKind::HttpParse
    } else if p.user {
        ErrorKind::HttpUser
    } else if p.canceled {
        ErrorKind::HttpCanceled
    } else if p.closed {
        ErrorKind::HttpClosed
    } else {
        ErrorKind::HttpOther
    }
}

/// Classifies a transport failure by what it reports of itself.
pub fn transport_kind(p: Probes) -> (r: ErrorKind)
    ensures
        r == transport_kind_spec(p),
{
    if p.parse {
        ErrorKind::HttpParse
    } else if p.user {
        ErrorKind::HttpUser
    } else if p.canceled {
        ErrorKind::HttpCanceled
    } else if p.closed {
        ErrorKind::HttpClosed
    } else {
        ErrorKind::HttpOther
    }
}

/// Distinct I/O categories that have members of their own get distinct kinds;
/// every other category is classified as `Other`.
pub proof fn lemma_io_kind_one_to_one(a: std::io::ErrorKind, b: std::io::ErrorKind)
    ensures
        io_kind_named(a) && io_kind_named(b) && a != b ==> io_kind_spec(a) != io_kind_spec(b),
        !io_kind_named(a) ==> io_kind_spec(a) == ErrorKind::Other,
{
}

/// Distinct URL-parse failure reasons get distinct kinds, and each is
/// classified as a URL kind, never as the fallback `Other`.
pub proof fn lemma_url_kind_one_to_one(a: url::ParseError, b: url::ParseError)
    ensures
        a != b ==> url_kind_spec(a) != url_kind_spec(b),
        url_kind_spec(a) != ErrorKind::Other,
{
}

/// The parse probe outranks the user probe: a transport failure that reports
/// itself as both is a parse failure, whatever the other probes say.
pub proof fn lemma_parse_probe_first(canceled: bool, closed: bool)
    ensures
        transport_kind_spec(Probes { parse: true, user: true, canceled, closed })
            == ErrorKind::HttpParse,
{
}

/// A transport failure that reports nothing of itself is `HttpOther`, and only
/// such a failure is.
pub proof fn lemma_no_probe_other(p: Probes)
    ensures
        (transport_kind_spec(p) == ErrorKind::HttpOther) == (!p.parse && !p.user && !p.canceled
            && !p.closed),
{
}

} // verus!
