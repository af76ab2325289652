//! The unified error: exactly one origin, classified on demand.

use vstd::prelude::*;
use crate::kind::{
    io_kind, io_kind_spec, transport_kind, transport_kind_spec, url_kind, url_kind_spec,
    ErrorKind, Probes,
};
use crate::native::{
    http_description, http_text, io_description, io_text, url_description, url_text,
    url_text_spec,
};

verus! {

/// A result whose failure is a `FlyError`.
pub type FlyResult<T> = Result<T, FlyError>;

/// Where a failure came from, with what classification reads of it: a kind
/// chosen by its producer with a message, or a native failure of I/O, URL
/// parsing or HTTP transport.
pub enum Origin {
    Classified(ErrorKind, Seq<char>),
    Io(std::io::ErrorKind, std::io::Error),
    Url(url::ParseError),
    Transport(Probes, hyper::Error),
}

/// The kind of a failure of the given origin.
pub open spec fn kind_of(o: Origin) -> ErrorKind {
    match o {
        Origin::Classified(k, _) => k,
        Origin::Io(c, _) => io_kind_spec(c),
        Origin::Url(e) => url_kind_spec(e),
        Origin::Transport(p, _) => transport_kind_spec(p),
    }
}

/// The text shown for a failure of the given origin, where it is known here:
/// the message of a classified failure, the fixed text of a URL-parse reason.
/// I/O and transport failures show what their own Display writes.
pub open spec fn text_of(o: Origin) -> Option<Seq<char>> {
    match o {
        Origin::Classified(_, m) => Some(m),
        Origin::Url(e) => Some(url_text_spec(e)),
        _ => None,
    }
}

/// The native failure that a `FlyError` wraps, lent out for inspection.
#[derive(Debug)]
pub enum Cause<'a> {
    Io(&'a std::io::Error),
    Url(&'a url::ParseError),
    Http(&'a hyper::Error),
}

/// The cause of a failure of the given origin: the wrapped native failure
/// itself, and none for a classified one.
pub open spec fn cause_of<'a>(o: &'a Origin) -> Option<Cause<'a>> {
    match o {
        Origin::Classified(_, _) => None,
        Origin::Io(_, e) => Some(Cause::Io(e)),
        Origin::Url(e) => Some(Cause::Url(e)),
        Origin::Transport(_, e) => Some(Cause::Http(e)),
    }
}

#[derive(Debug)]
enum Repr {
    Simple(ErrorKind, String),
    IoErr(std::io::ErrorKind, std::io::Error),
    UrlErr(url::ParseError),
    HyperErr(Probes, hyper::Error),
}

/// A failure from any subsystem, carried as one value.
#[derive(Debug)]
pub struct FlyError {
    repr: Repr,
}

impl View for FlyError {
    type V = Origin;

    closed spec fn view(&self) -> Origin {
        match self.repr {
            Repr::Simple(k, m) => Origin::Classified(k, m@),
            Repr::IoErr(c, e) => Origin::Io(c, e),
            Repr::UrlErr(e) => Origin::Url(e),
            Repr::HyperErr(p, e) => Origin::Transport(p, e),
        }
    }
}

/// A failure of the given kind, described by `msg`.
pub fn new(kind: ErrorKind, msg: String) -> (r: FlyError)
    ensures
        r@ == Origin::Classified(kind, msg@),
{
    FlyError { repr: Repr::Simple(kind, msg) }
}

/// The failure of an operation that was not permitted.
pub fn permission_denied() -> (r: FlyError)
    ensures
        r@ == Origin::Classified(ErrorKind::PermissionDenied, "permission denied"@),
{
    new(ErrorKind::PermissionDenied, "permission denied".to_string())
}

impl FlyError {
    /// The kind that callers branch on.
    pub fn kind(&self) -> (r: ErrorKind)
        ensures
            r == kind_of(self@),
    {
        match &self.repr {
            Repr::Simple(k, _) => *k,
            Repr::IoErr(c, _) => io_kind(*c),
            Repr::UrlErr(e) => url_kind(e),
            Repr::HyperErr(p, _) => transport_kind(*p),
        }
    }

    /// The text of the failure: the message of a classified one, else the
    /// native failure's own display text, unchanged.
    pub fn to_string(&self) -> (r: String)
        ensures
            text_of(self@) matches Some(t) ==> r@ == t,
    {
        match &self.repr {
            Repr::Simple(_, m) => m.clone(),
            Repr::IoErr(_, e) => io_text(e),
            Repr::UrlErr(e) => url_text(e),
            Repr::HyperErr(_, e) => http_text(e),
        }
    }

    /// The description: the message of a classified failure, else the native
    /// failure's own description.
    pub fn description(&self) -> (r: &str)
        ensures
            self@ matches Origin::Classified(_, m) ==> r@ == m,
    {
        match &self.repr {
            Repr::Simple(_, m) => m.as_str(),
            Repr::IoErr(_, e) => io_description(e),
            Repr::UrlErr(e) => url_description(e),
            Repr::HyperErr(_, e) => http_description(e),
        }
    }

    /// The wrapped native failure, if there is one.
    pub fn cause(&self) -> (r: Option<Cause<'_>>)
        ensures
            r == cause_of(&self@),
    {
        match &self.repr {
            Repr::Simple(_, _) => None,
            Repr::IoErr(_, e) => Some(Cause::Io(e)),
            Repr::UrlErr(e) => Some(Cause::Url(e)),
            Repr::HyperErr(_, e) => Some(Cause::Http(e)),
        }
    }
}

impl From<std::io::Error> for FlyError {
    /// Wraps an I/O failure, with the category it reports.
    fn from(err: std::io::Error) -> (r: FlyError)
        ensures
            r@ matches Origin::Io(_, e) && e == err,
    {
        let c = err.kind();
        FlyError { repr: Repr::IoErr(c, err) }
    }
}

impl vstd::std_specs::convert::FromSpecImpl<std::io::Error> for FlyError {
    open spec fn obeys_from_spec() -> bool {
        false
    }

    open spec fn from_spec(v: std::io::Error) -> FlyError {
        arbitrary()
    }
}

impl From<url::ParseError> for FlyError {
    /// Wraps a URL-parse failure.
    fn from(err: url::ParseError) -> (r: FlyError)
        ensures
            r@ == Origin::Url(err),
    {
        FlyError { repr: Repr::UrlErr(err) }
    }
}

impl vstd::std_specs::convert::FromSpecImpl<url::ParseError> for FlyError {
    open spec fn obeys_from_spec() -> bool {
        true
    }

    closed spec fn from_spec(v: url::ParseError) -> FlyError {
        FlyError { repr: Repr::UrlErr(v) }
    }
}

impl From<hyper::Error> for FlyError {
    /// Wraps a transport failure, with what its probes report.
    fn from(err: hyper::Error) -> (r: FlyError)
        ensures
            r@ matches Origin::Transport(_, e) && e == err,
    {
        let p = Probes {
            parse: err.is_parse(),
            user: err.is_user(),
            canceled: err.is_canceled(),
            closed: err.is_closed(),
        };
        FlyError { repr: Repr::HyperErr(p, err) }
    }
}

impl vstd::std_specs::convert::FromSpecImpl<hyper::Error> for FlyError {
    open spec fn obeys_from_spec() -> bool {
        false
    }

    open spec fn from_spec(v: hyper::Error) -> FlyError {
        arbitrary()
    }
}

impl From<String> for FlyError {
    /// A failure described by a message alone.
    fn from(err: String) -> (r: FlyError)
        ensures
            r@ == Origin::Classified(ErrorKind::String, err@),
    {
        FlyError { repr: Repr::Simple(ErrorKind::String, err) }
    }
}

impl vstd::std_specs::convert::FromSpecImpl<String> for FlyError {
    open spec fn obeys_from_spec() -> bool {
        true
    }

    closed spec fn from_spec(v: String) -> FlyError {
        FlyError { repr: Repr::Simple(ErrorKind::String, v) }
    }
}

impl From<()> for FlyError {
    /// A failure that carries no information.
    fn from(err: ()) -> (r: FlyError)
        ensures
            r@ == Origin::Classified(ErrorKind::String, "Errored with non message error."@),
    {
        new(ErrorKind::String, "Errored with non message error.".to_string())
    }
}

impl vstd::std_specs::convert::FromSpecImpl<()> for FlyError {
    open spec fn obeys_from_spec() -> bool {
        false
    }

    open spec fn from_spec(v: ()) -> FlyError {
        arbitrary()
    }
}

/// A failure made with a kind and a message reports that kind and shows that
/// message, for every kind and every message.
pub proof fn lemma_classified_round_trip(k: ErrorKind, m: Seq<char>)
    ensures
        kind_of(Origin::Classified(k, m)) == k,
        text_of(Origin::Classified(k, m)) == Some(m),
{
}

/// Wrapping loses nothing: the cause of a wrapped native failure is that
/// failure itself, so it shows exactly the text it showed before.
pub proof fn lemma_cause_is_wrapped(
    c: std::io::ErrorKind,
    io: std::io::Error,
    u: url::ParseError,
    p: Probes,
    h: hyper::Error,
)
    ensures
        cause_of(&Origin::Io(c, io)) == Some(Cause::Io(&io)),
        cause_of(&Origin::Url(u)) == Some(Cause::Url(&u)),
        cause_of(&Origin::Transport(p, h)) == Some(Cause::Http(&h)),
{
}

/// A wrapped I/O failure is classified by its category alone: the member of
/// the same name where there is one.
pub proof fn lemma_io_classified_by_category(c: std::io::ErrorKind, e: std::io::Error)
    ensures
        kind_of(Origin::Io(c, e)) == io_kind_spec(c),
{
}

} // verus!
