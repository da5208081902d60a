//! The ways in which building a request can fail.

use vstd::prelude::*;
use vstd::string::*;

verus! {

/// Why a list of arguments could not be turned into a request.
#[derive(Debug, PartialEq, Eq)]
pub enum Error {
    /// A flag that takes a value was the last argument; holds the flag.
    MissingArgument(String),
    /// The text is no absolute URL; holds the text.
    IllegalUrl(String),
    /// A header line without a colon; holds the line.
    IllegalHeader(String),
    /// The text is no method name; holds the text.
    IllegalMethod(String),
    /// No URL was given.
    UrlNotFound,
    /// The URL names no host.
    HostMissing,
    /// The URL's host is an IPv6 address.
    Ipv6NotSupported,
    /// The protocol version is neither HTTP/1.0 nor HTTP/1.1.
    VersionNotSupported,
}

/// A failure by the characters of its text.
pub enum ErrorView {
    MissingArgument(Seq<char>),
    IllegalUrl(Seq<char>),
    IllegalHeader(Seq<char>),
    IllegalMethod(Seq<char>),
    UrlNotFound,
    HostMissing,
    Ipv6NotSupported,
    VersionNotSupported,
}

impl View for Error {
    type V = ErrorView;

    open spec fn view(&self) -> ErrorView {
        match self {
            Error::MissingArgument(flag) => ErrorView::MissingArgument(flag@),
            Error::IllegalUrl(text) => ErrorView::IllegalUrl(text@),
            Error::IllegalHeader(line) => ErrorView::IllegalHeader(line@),
            Error::IllegalMethod(text) => ErrorView::IllegalMethod(text@),
            Error::UrlNotFound => ErrorView::UrlNotFound,
            Error::HostMissing => ErrorView::HostMissing,
            Error::Ipv6NotSupported => ErrorView::Ipv6NotSupported,
            Error::VersionNotSupported => ErrorView::VersionNotSupported,
        }
    }
}

/// The message that describes a failure.
pub open spec fn message_text(error: ErrorView) -> Seq<char> {
    match error {
        ErrorView::MissingArgument(flag) => "argument is missing after "@ + flag,
        ErrorView::IllegalUrl(text) => "url is illegal: "@ + text,
        ErrorView::IllegalHeader(line) => "header is illegal: "@ + line,
        ErrorView::IllegalMethod(text) => "method is illegal: "@ + text,
        ErrorView::UrlNotFound => "url is not found"@,
        ErrorView::HostMissing => "host is missing"@,
        ErrorView::Ipv6NotSupported => "IPv6 is not supported"@,
        ErrorView::VersionNotSupported => "http version is not supported"@,
    }
}

impl Error {
    /// Describes the failure in words.
    pub fn message(&self) -> (r: String)
        ensures
            r@ == message_text(self@),
    {
        match self {
            Error::MissingArgument(flag) => "argument is missing after ".to_string().concat(
                flag.as_str(),
            ),
            Error::IllegalUrl(text) => "url is illegal: ".to_string().concat(text.as_str()),
            Error::IllegalHeader(line) => "header is illegal: ".to_string().concat(line.as_str()),
            Error::IllegalMethod(text) => "method is illegal: ".to_string().concat(text.as_str()),
            Error::UrlNotFound => "url is not found".to_string(),
            Error::HostMissing => "host is missing".to_string(),
            Error::Ipv6NotSupported => "IPv6 is not supported".to_string(),
            Error::VersionNotSupported => "http version is not supported".to_string(),
        }
    }
}

} // verus!
