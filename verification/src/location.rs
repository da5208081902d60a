//! What a request takes from its URL: the path, the host and the port.

use vstd::prelude::*;
use vstd::string::*;
use crate::decimal::{decimal, decimal_text};
use crate::error::{Error, ErrorView};

verus! {

/// The host of a URL.
#[derive(Debug, PartialEq, Eq)]
pub enum Host {
    /// A domain name.
    Domain(String),
    /// An IPv4 address, by its four octets.
    Ipv4([u8; 4]),
    /// An IPv6 address, by its eight 16-bit segments.
    Ipv6([u16; 8]),
}

/// A host by the characters of its name.
pub enum HostView {
    Domain(Seq<char>),
    Ipv4([u8; 4]),
    Ipv6([u16; 8]),
}

impl View for Host {
    type V = HostView;

    open spec fn view(&self) -> HostView {
        match self {
            Host::Domain(name) => HostView::Domain(name@),
            Host::Ipv4(octets) => HostView::Ipv4(*octets),
            Host::Ipv6(segments) => HostView::Ipv6(*segments),
        }
    }
}

impl DeepView for Host {
    type V = HostView;

    open spec fn deep_view(&self) -> HostView {
        self@
    }
}

/// An absolute URL, taken apart.
#[derive(Debug, PartialEq, Eq)]
pub struct ParsedUrl {
    /// The text the URL was parsed from.
    pub source: String,
    /// The path, percent-encoded.
    pub path: String,
    /// The host, if the URL has one.
    pub host: Option<Host>,
    /// The port, if the URL gives one that is not its scheme's default.
    pub port: Option<u16>,
}

/// A URL's parts by their characters.
pub struct ParsedUrlView {
    pub source: Seq<char>,
    pub path: Seq<char>,
    pub host: Option<HostView>,
    pub port: Option<u16>,
}

impl View for ParsedUrl {
    type V = ParsedUrlView;

    open spec fn view(&self) -> ParsedUrlView {
        ParsedUrlView {
            source: self.source@,
            path: self.path@,
            host: self.host.deep_view(),
            port: self.port,
        }
    }
}

impl DeepView for ParsedUrl {
    type V = ParsedUrlView;

    open spec fn deep_view(&self) -> ParsedUrlView {
        self@
    }
}

/// What `url::Url::parse` makes of a text: `None` where it rejects the text,
/// else the text itself and the parts of the URL it returns, as `Url::path`,
/// `Url::host` and `Url::port` give them.
pub uninterp spec fn parsed_url(text: Seq<char>) -> Option<ParsedUrlView>;

/// Calls `url::Url::parse` and copies out of the URL what `Url::path`,
/// `Url::host` and `Url::port` return. The result is a function of the text
/// alone; nothing more is claimed of it than that it keeps the text it was
/// given as its source.
#[verifier::external_body]
pub(crate) fn url_parse(text: &str) -> (r: Option<ParsedUrl>)
    ensures
        r.deep_view() == parsed_url(text@),
        r matches Some(url) ==> url.source@ == text@,
{
    let url = url::Url::parse(text).ok()?;
    let host = match url.host() {
        None => None,
        Some(url::Host::Domain(name)) => Some(Host::Domain(name.to_string())),
        Some(url::Host::Ipv4(address)) => Some(Host::Ipv4(address.octets())),
        Some(url::Host::Ipv6(address)) => Some(Host::Ipv6(address.segments())),
    };
    Some(ParsedUrl { source: text.to_string(), path: url.path().to_string(), host, port: url.port() })
}

/// An IPv4 address in dotted decimal.
pub open spec fn ipv4_text(octets: [u8; 4]) -> Seq<char> {
    decimal_text(octets[0] as nat) + seq!['.'] + decimal_text(octets[1] as nat) + seq!['.']
        + decimal_text(octets[2] as nat) + seq!['.'] + decimal_text(octets[3] as nat)
}

/// The host as a `Host` header names it: the domain or the dotted address,
/// followed by a colon and the port where there is a port. A missing host and
/// an IPv6 address are failures.
pub open spec fn host_text(host: Option<HostView>, port: Option<u16>) -> Result<
    Seq<char>,
    ErrorView,
> {
    match host {
        None => Err(ErrorView::HostMissing),
        Some(HostView::Ipv6(_)) => Err(ErrorView::Ipv6NotSupported),
        Some(HostView::Domain(name)) => Ok(name + port_suffix(port)),
        Some(HostView::Ipv4(octets)) => Ok(ipv4_text(octets) + port_suffix(port)),
    }
}

/// A colon and the port in decimal, or nothing.
pub open spec fn port_suffix(port: Option<u16>) -> Seq<char> {
    match port {
        Some(port) => seq![':'] + decimal_text(port as nat),
        None => seq![],
    }
}

/// Writes an IPv4 address in dotted decimal.
pub fn ipv4_string(octets: &[u8; 4]) -> (r: String)
    ensures
        r@ == ipv4_text(*octets),
{
    proof {
        reveal_strlit(".");
    }
    let mut r = decimal(octets[0] as u64);
    r.append(".");
    r.append(decimal(octets[1] as u64).as_str());
    r.append(".");
    r.append(decimal(octets[2] as u64).as_str());
    r.append(".");
    r.append(decimal(octets[3] as u64).as_str());
    assert(r@ =~= ipv4_text(*octets));
    r
}

/// The value of the `Host` header for a URL's host and port.
pub fn host_header(host: &Option<Host>, port: Option<u16>) -> (r: Result<String, Error>)
    ensures
        match host_text(host.deep_view(), port) {
            Ok(text) => r matches Ok(value) && value@ == text,
            Err(error) => r matches Err(e) && e@ == error,
        },
{
    proof {
        reveal_strlit(":");
    }
    let mut text = match host {
        None => {
            return Err(Error::HostMissing);
        },
        Some(Host::Ipv6(_)) => {
            return Err(Error::Ipv6NotSupported);
        },
        Some(Host::Domain(name)) => name.clone(),
        Some(Host::Ipv4(octets)) => ipv4_string(octets),
    };
    match port {
        Some(port) => {
            text.append(":");
            text.append(decimal(port as u64).as_str());
        },
        None => {},
    }
    assert(text@ =~= host_text(host.deep_view(), port)->Ok_0);
    Ok(text)
}

} // verus!
