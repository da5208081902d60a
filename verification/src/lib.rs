//! A minimal HTTP client core: command-line tokens are decoded into commands,
//! folded into a request and rendered as HTTP/1.0 or HTTP/1.1 wire text.
//!
//! Every function of this crate is verified; the few calls into `http`, `url`
//! and unspecified parts of `std` sit behind small trusted wrappers whose
//! contracts are spelled out where they stand.

pub mod http_header;
pub mod text;
pub mod decimal;
pub mod method;
pub mod version;
pub mod error;
pub mod location;
pub mod request;
pub mod header_map;
pub mod cli;
pub mod response;
pub mod laws;
