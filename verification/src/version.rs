//! Protocol versions.

use vstd::prelude::*;
use crate::request::{HTTP_10, HTTP_11};

verus! {

/// A version of the HTTP protocol.
#[derive(Clone, Copy, Debug, PartialEq, Eq, Structural)]
pub enum Version {
    Http09,
    Http10,
    Http11,
    H2,
    H3,
}

/// The protocol token of a version this client can speak; `None` for the
/// others.
pub open spec fn protocol_text(version: Version) -> Option<Seq<char>> {
    match version {
        Version::Http10 => Some(HTTP_10@),
        Version::Http11 => Some(HTTP_11@),
        _ => None,
    }
}

impl Version {
    /// The token written on the request line: `HTTP/1.0` or `HTTP/1.1`.
    pub fn protocol(self) -> (r: Option<&'static str>)
        ensures
            r.deep_view() == protocol_text(self),
    {
        match self {
            Version::Http10 => Some(HTTP_10),
            Version::Http11 => Some(HTTP_11),
            _ => None,
        }
    }
}

impl Default for Version {
    /// HTTP/1.1.
    fn default() -> (r: Version)
        ensures
            r == Version::Http11,
    {
        Version::Http11
    }
}

} // verus!
