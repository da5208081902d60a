//! Names of the header fields this client writes.

use vstd::prelude::*;

verus! {

pub const ACCEPT: &'static str = "Accept";

pub const ACCEPT_ENCODING: &'static str = "Accept-Encoding";

pub const CONNECTION: &'static str = "Connection";

pub const CONTENT_LENGTH: &'static str = "Content-Length";

pub const CONTENT_TYPE: &'static str = "Content-Type";

pub const COOKIE: &'static str = "Cookie";

pub const HOST: &'static str = "Host";

pub const USER_AGENT: &'static str = "User-Agent";

} // verus!
