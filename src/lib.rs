//! One error type for a networked application: failures from local I/O,
//! URL parsing, HTTP transport and plain messages, classified into a single
//! closed set of kinds.

pub mod kind;
pub mod native;
pub mod error;

pub use error::{new, permission_denied, Cause, FlyError, FlyResult, Origin};
pub use kind::{ErrorKind, Probes};
