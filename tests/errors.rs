use fly_errors::kind::transport_kind;
use fly_errors::{new, permission_denied, Cause, ErrorKind, FlyError, FlyResult, Probes};
use std::io;

fn io_kind_of(k: io::ErrorKind) -> ErrorKind {
    FlyError::from(io::Error::new(k, "boom")).kind()
}

#[test]
fn io_categories_map_to_same_named_kinds() {
    let table = [
        (io::ErrorKind::NotFound, ErrorKind::NotFound),
        (io::ErrorKind::PermissionDenied, ErrorKind::PermissionDenied),
        (io::ErrorKind::ConnectionRefused, ErrorKind::ConnectionRefused),
        (io::ErrorKind::ConnectionReset, ErrorKind::ConnectionReset),
        (io::ErrorKind::ConnectionAborted, ErrorKind::ConnectionAborted),
        (io::ErrorKind::NotConnected, ErrorKind::NotConnected),
        (io::ErrorKind::AddrInUse, ErrorKind::AddrInUse),
        (io::ErrorKind::AddrNotAvailable, ErrorKind::AddrNotAvailable),
        (io::ErrorKind::BrokenPipe, ErrorKind::BrokenPipe),
        (io::ErrorKind::AlreadyExists, ErrorKind::AlreadyExists),
        (io::ErrorKind::WouldBlock, ErrorKind::WouldBlock),
        (io::ErrorKind::InvalidInput, ErrorKind::InvalidInput),
        (io::ErrorKind::InvalidData, ErrorKind::InvalidData),
        (io::ErrorKind::TimedOut, ErrorKind::TimedOut),
        (io::ErrorKind::Interrupted, ErrorKind::Interrupted),
        (io::ErrorKind::WriteZero, ErrorKind::WriteZero),
        (io::ErrorKind::Other, ErrorKind::Other),
        (io::ErrorKind::UnexpectedEof, ErrorKind::UnexpectedEof),
    ];
    for (native, expected) in table {
        assert_eq!(io_kind_of(native), expected);
    }
}

#[test]
fn io_category_without_member_is_other() {
    assert_eq!(io_kind_of(io::ErrorKind::Unsupported), ErrorKind::Other);
    assert_eq!(io_kind_of(io::ErrorKind::OutOfMemory), ErrorKind::Other);
}

#[test]
fn url_reasons_map_to_same_named_kinds() {
    let table = [
        (url::ParseError::EmptyHost, ErrorKind::EmptyHost),
        (url::ParseError::IdnaError, ErrorKind::IdnaError),
        (url::ParseError::InvalidPort, ErrorKind::InvalidPort),
        (url::ParseError::InvalidIpv4Address, ErrorKind::InvalidIpv4Address),
        (url::ParseError::InvalidIpv6Address, ErrorKind::InvalidIpv6Address),
        (url::ParseError::InvalidDomainCharacter, ErrorKind::InvalidDomainCharacter),
        (url::ParseError::RelativeUrlWithoutBase, ErrorKind::RelativeUrlWithoutBase),
        (url::ParseError::RelativeUrlWithCannotBeABaseBase, ErrorKind::RelativeUrlWithCannotBeABaseBase),
        (url::ParseError::SetHostOnCannotBeABaseUrl, ErrorKind::SetHostOnCannotBeABaseUrl),
        (url::ParseError::Overflow, ErrorKind::Overflow),
    ];
    for (native, expected) in table {
        assert_eq!(FlyError::from(native).kind(), expected);
    }
}

#[test]
fn url_reasons_show_their_own_text() {
    let table = [
        (url::ParseError::EmptyHost, "empty host"),
        (url::ParseError::IdnaError, "invalid international domain name"),
        (url::ParseError::InvalidPort, "invalid port number"),
        (url::ParseError::InvalidIpv4Address, "invalid IPv4 address"),
        (url::ParseError::InvalidIpv6Address, "invalid IPv6 address"),
        (url::ParseError::InvalidDomainCharacter, "invalid domain character"),
        (url::ParseError::RelativeUrlWithoutBase, "relative URL without a base"),
        (url::ParseError::RelativeUrlWithCannotBeABaseBase, "relative URL with a cannot-be-a-base base"),
        (url::ParseError::SetHostOnCannotBeABaseUrl, "a cannot-be-a-base URL doesn’t have a host to set"),
        (url::ParseError::Overflow, "URLs more than 4 GB are not supported"),
    ];
    for (native, text) in table {
        assert_eq!(native.to_string(), text);
        assert_eq!(FlyError::from(native).to_string(), text);
    }
}

#[test]
fn parse_probe_wins_over_user_probe() {
    for canceled in [false, true] {
        for closed in [false, true] {
            let p = Probes { parse: true, user: true, canceled, closed };
            assert_eq!(transport_kind(p), ErrorKind::HttpParse);
        }
    }
}

#[test]
fn no_probe_is_http_other() {
    let p = Probes { parse: false, user: false, canceled: false, closed: false };
    assert_eq!(transport_kind(p), ErrorKind::HttpOther);
}

#[test]
fn each_probe_alone_decides() {
    let none = Probes { parse: false, user: false, canceled: false, closed: false };
    assert_eq!(transport_kind(Probes { parse: true, ..none }), ErrorKind::HttpParse);
    assert_eq!(transport_kind(Probes { user: true, ..none }), ErrorKind::HttpUser);
    assert_eq!(transport_kind(Probes { canceled: true, ..none }), ErrorKind::HttpCanceled);
    assert_eq!(transport_kind(Probes { closed: true, ..none }), ErrorKind::HttpClosed);
    assert_eq!(
        transport_kind(Probes { user: true, canceled: true, closed: true, ..none }),
        ErrorKind::HttpUser
    );
    assert_eq!(
        transport_kind(Probes { canceled: true, closed: true, ..none }),
        ErrorKind::HttpCanceled
    );
}

#[test]
fn new_round_trips_kind_and_message() {
    for kind in [
        ErrorKind::String,
        ErrorKind::NotFound,
        ErrorKind::InvalidPort,
        ErrorKind::HttpClosed,
        ErrorKind::Overflow,
    ] {
        let e = new(kind, "msg".to_string());
        assert_eq!(e.kind(), kind);
        assert_eq!(e.to_string(), "msg");
        assert_eq!(e.description(), "msg");
        assert!(e.cause().is_none());
    }
    let empty = new(ErrorKind::Other, String::new());
    assert_eq!(empty.to_string(), "");
}

#[test]
fn unit_failure_has_fixed_message() {
    let e = FlyError::from(());
    assert_eq!(e.kind(), ErrorKind::String);
    assert_eq!(e.to_string(), "Errored with non message error.");
    assert!(e.cause().is_none());
}

#[test]
fn string_failure_is_string_kind() {
    let e: FlyError = "went wrong".to_string().into();
    assert_eq!(e.kind(), ErrorKind::String);
    assert_eq!(e.to_string(), "went wrong");
    assert_eq!(e.description(), "went wrong");
}

#[test]
fn permission_denied_kind_and_text() {
    let e = permission_denied();
    assert_eq!(e.kind(), ErrorKind::PermissionDenied);
    assert_eq!(e.to_string(), "permission denied");
}

#[test]
fn io_cause_shows_original_text() {
    let original = io::Error::new(io::ErrorKind::NotFound, "no such file: a.txt");
    let text = original.to_string();
    let e = FlyError::from(original);
    assert_eq!(e.to_string(), text);
    match e.cause() {
        Some(Cause::Io(inner)) => {
            assert_eq!(inner.to_string(), text);
            assert_eq!(inner.kind(), io::ErrorKind::NotFound);
        }
        _ => panic!("expected an I/O cause"),
    }
}

#[test]
#[allow(deprecated)]
fn io_description_is_delegated() {
    let a = io::Error::new(io::ErrorKind::TimedOut, "slow peer");
    let b = io::Error::new(io::ErrorKind::TimedOut, "slow peer");
    let expected = std::error::Error::description(&a).to_string();
    assert_eq!(FlyError::from(b).description(), expected);
}

#[test]
fn url_cause_is_original_reason() {
    let e = FlyError::from(url::ParseError::InvalidIpv6Address);
    match e.cause() {
        Some(Cause::Url(inner)) => {
            assert_eq!(*inner, url::ParseError::InvalidIpv6Address);
            assert_eq!(inner.to_string(), url::ParseError::InvalidIpv6Address.to_string());
        }
        _ => panic!("expected a URL cause"),
    }
}

fn parse_base(s: &str) -> FlyResult<url::Url> {
    Ok(url::Url::parse(s)?)
}

fn read_missing() -> FlyResult<()> {
    Err(io::Error::new(io::ErrorKind::AddrInUse, "port taken"))?;
    Ok(())
}

#[test]
fn question_mark_lifts_native_failures() {
    let e = parse_base("no scheme here").unwrap_err();
    assert_eq!(e.kind(), ErrorKind::RelativeUrlWithoutBase);
    assert_eq!(e.to_string(), "relative URL without a base");
    let e = parse_base("http://[::1").unwrap_err();
    assert_eq!(e.kind(), ErrorKind::InvalidIpv6Address);
    assert!(parse_base("http://example.com/").is_ok());
    let e = read_missing().unwrap_err();
    assert_eq!(e.kind(), ErrorKind::AddrInUse);
    assert_eq!(e.to_string(), "port taken");
}
