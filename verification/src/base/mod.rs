//! Primitives shared by every component: the error type, directory
//! resolution, events, device records and supervision.
use vstd::prelude::*;

pub mod bus;
pub mod paths;
pub mod store;
pub mod supervise;

verus! {

/// Canonical application name used for directory layout and socket paths.
pub const APP_NAME: &'static str = "handfast";

/// Errors of the daemon's operations.
#[derive(Debug, Clone, PartialEq, Eq)]
pub enum Error {
    /// Filesystem or other standard I/O failure.
    Io(String),
    /// SQLite backend failure.
    Sqlite(String),
    /// JSON serialization or deserialization failure.
    Json(String),
    /// Any other failure, described by the payload.
    Other(String),
}

impl Error {
    /// The human-readable text of the error.
    pub open spec fn text(self) -> Seq<char> {
        match self {
            Error::Io(m) => "io: "@ + m@,
            Error::Sqlite(m) => "sqlite: "@ + m@,
            Error::Json(m) => "json: "@ + m@,
            Error::Other(m) => m@,
        }
    }

    /// The human-readable text of the error.
    pub fn message(&self) -> (r: String)
        ensures
            r@ == self.text(),
    {
        match self {
            Error::Io(m) => "io: ".to_owned().concat(m.as_str()),
            Error::Sqlite(m) => "sqlite: ".to_owned().concat(m.as_str()),
            Error::Json(m) => "json: ".to_owned().concat(m.as_str()),
            Error::Other(m) => m.clone(),
        }
    }
}

} // verus!
