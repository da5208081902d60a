//! The request and its wire text.

use vstd::prelude::*;
use vstd::string::*;
use crate::method::Method;

verus! {

pub const HTTP_10: &'static str = "HTTP/1.0";

pub const HTTP_11: &'static str = "HTTP/1.1";

/// One header: a key and its value.
#[derive(Debug, PartialEq, Eq)]
pub struct Entry {
    pub key: String,
    pub value: String,
}

/// A header by the characters of its key and value.
pub struct EntryView {
    pub key: Seq<char>,
    pub value: Seq<char>,
}

impl View for Entry {
    type V = EntryView;

    open spec fn view(&self) -> EntryView {
        EntryView { key: self.key@, value: self.value@ }
    }
}

impl DeepView for Entry {
    type V = EntryView;

    open spec fn deep_view(&self) -> EntryView {
        self@
    }
}

/// The end of a line on the wire.
pub open spec fn crlf() -> Seq<char> {
    seq!['\r', '\n']
}

/// A header on the wire: `<key>: <value>` and the end of the line.
pub open spec fn entry_text(entry: EntryView) -> Seq<char> {
    entry.key + seq![':', ' '] + entry.value + crlf()
}

/// The headers on the wire, one after the other in the order of the list.
pub open spec fn headers_text(headers: Seq<EntryView>) -> Seq<char>
    decreases headers.len(),
{
    if headers.len() == 0 {
        seq![]
    } else {
        headers_text(headers.drop_last()) + entry_text(headers.last())
    }
}

impl Entry {
    /// Renders the header as a line of the message.
    pub fn to_message(&self) -> (r: String)
        ensures
            r@ == entry_text(self@),
    {
        proof {
            reveal_strlit(": ");
            reveal_strlit("\r\n");
        }
        let mut r = self.key.clone();
        r.append(": ");
        r.append(self.value.as_str());
        r.append("\r\n");
        assert(r@ =~= entry_text(self@));
        r
    }
}

/// The first line of a request.
#[derive(Debug, PartialEq, Eq)]
pub struct RequestLine {
    pub method: Method,
    pub path: String,
    pub protocol: String,
}

/// A request line by the characters of its parts.
pub struct RequestLineView {
    pub method: Seq<char>,
    pub path: Seq<char>,
    pub protocol: Seq<char>,
}

impl View for RequestLine {
    type V = RequestLineView;

    open spec fn view(&self) -> RequestLineView {
        RequestLineView { method: self.method@, path: self.path@, protocol: self.protocol@ }
    }
}

/// The request line on the wire: `<method> <path> <protocol>` and the end of
/// the line.
pub open spec fn request_line_text(line: RequestLineView) -> Seq<char> {
    line.method + seq![' '] + line.path + seq![' '] + line.protocol + crlf()
}

impl RequestLine {
    /// Renders the request line.
    pub fn to_message(&self) -> (r: String)
        ensures
            r@ == request_line_text(self@),
    {
        proof {
            reveal_strlit(" ");
            reveal_strlit("\r\n");
        }
        let mut r = self.method.as_str().to_string();
        r.append(" ");
        r.append(self.path.as_str());
        r.append(" ");
        r.append(self.protocol.as_str());
        r.append("\r\n");
        assert(r@ =~= request_line_text(self@));
        r
    }
}

/// An address to connect to.
#[derive(Clone, Copy, Debug, PartialEq, Eq)]
pub enum SocketAddr {
    /// An IPv4 address, by its four octets, and a port.
    V4 { octets: [u8; 4], port: u16 },
    /// An IPv6 address, by its eight 16-bit segments, a port, the flow
    /// information and the scope.
    V6 { segments: [u16; 8], port: u16, flowinfo: u32, scope_id: u32 },
}

/// A request ready to be sent.
#[derive(Debug, PartialEq, Eq)]
pub struct Request {
    pub socket_addrs: Vec<SocketAddr>,
    pub request_line: RequestLine,
    pub request_header: Vec<Entry>,
    pub request_data: Option<String>,
}

/// A request by the characters of its texts.
pub struct RequestView {
    pub socket_addrs: Seq<SocketAddr>,
    pub request_line: RequestLineView,
    pub request_header: Seq<EntryView>,
    pub request_data: Option<Seq<char>>,
}

impl View for Request {
    type V = RequestView;

    open spec fn view(&self) -> RequestView {
        RequestView {
            socket_addrs: self.socket_addrs@,
            request_line: self.request_line@,
            request_header: self.request_header.deep_view(),
            request_data: self.request_data.deep_view(),
        }
    }
}

/// The body as it is sent: its text, or nothing.
pub open spec fn body_text(data: Option<Seq<char>>) -> Seq<char> {
    match data {
        Some(text) => text,
        None => seq![],
    }
}

/// The message on the wire: the request line, the headers in their order, an
/// empty line, and the body as it is.
pub open spec fn wire_text(request: RequestView) -> Seq<char> {
    request_line_text(request.request_line) + headers_text(request.request_header) + crlf()
        + body_text(request.request_data)
}

impl Request {
    /// Renders the whole message.
    pub fn to_message(&self) -> (r: String)
        ensures
            r@ == wire_text(self@),
    {
        proof {
            reveal_strlit("\r\n");
        }
        let mut res = self.request_line.to_message();
        let ghost line = res@;
        let ghost headers = self.request_header.deep_view();
        let mut i: usize = 0;
        while i < self.request_header.len()
            invariant
                i <= self.request_header.len(),
                headers == self.request_header.deep_view(),
                res@ == line + headers_text(headers.take(i as int)),
            decreases self.request_header.len() - i,
        {
            let entry = &self.request_header[i];
            res.append(entry.to_message().as_str());
            proof {
                let next = headers.take(i + 1);
                assert(next.drop_last() =~= headers.take(i as int));
                assert(next.last() == entry@);
                assert(res@ =~= line + headers_text(next));
            }
            i = i + 1;
        }
        assert(headers.take(i as int) =~= headers);
        res.append("\r\n");
        match &self.request_data {
            Some(data) => {
                res.append(data.as_str());
            },
            None => {},
        }
        assert(res@ =~= wire_text(self@));
        res
    }
}

} // verus!
