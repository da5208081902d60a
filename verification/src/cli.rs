//! From command-line arguments to a request.

use vstd::prelude::*;
use vstd::string::*;
use vstd::utf8::encode_utf8;
use crate::decimal::{decimal, decimal_text};
use crate::error::{Error, ErrorView};
use crate::header_map::HeaderMap;
use crate::http_header;
use crate::location::{host_header, host_text, parsed_url, url_parse, ParsedUrl, ParsedUrlView};
use crate::method::{is_token, Method};
use crate::request::{Entry, EntryView, Request, RequestLine, RequestLineView, RequestView, SocketAddr};
use crate::text::{find_char, str_eq, trim, trimmed};
use crate::version::{protocol_text, Version};

verus! {

/// One directive of the command line.
#[derive(Debug, PartialEq, Eq)]
pub enum Command {
    /// A bare argument: the URL to request.
    Url(String),
    /// `-0`
    Version(Version),
    /// `-H`
    Header(String),
    /// `-d`
    Data(String),
    /// `-F`; has no effect.
    Form { param: Vec<Entry>, upload: Vec<Entry>, read: Vec<Entry> },
    /// `-X`
    Method(String),
    /// `-b`
    Cookie(String),
    /// `-c`; has no effect.
    CookieJar { file_name: String },
    /// `-j`; has no effect.
    JunkSessionCookies,
    /// `-l`; has no effect.
    OutputHeader,
    /// `-i`; has no effect.
    OutputHeaderAndData,
    /// `-D`; has no effect.
    DumpHeader { file_name: String },
}

/// A command by the characters of its texts.
pub enum CommandView {
    Url(Seq<char>),
    Version(Version),
    Header(Seq<char>),
    Data(Seq<char>),
    Form { param: Seq<EntryView>, upload: Seq<EntryView>, read: Seq<EntryView> },
    Method(Seq<char>),
    Cookie(Seq<char>),
    CookieJar { file_name: Seq<char> },
    JunkSessionCookies,
    OutputHeader,
    OutputHeaderAndData,
    DumpHeader { file_name: Seq<char> },
}

impl View for Command {
    type V = CommandView;

    open spec fn view(&self) -> CommandView {
        match self {
            Command::Url(text) => CommandView::Url(text@),
            Command::Version(version) => CommandView::Version(*version),
            Command::Header(line) => CommandView::Header(line@),
            Command::Data(data) => CommandView::Data(data@),
            Command::Form { param, upload, read } => CommandView::Form {
                param: param.deep_view(),
                upload: upload.deep_view(),
                read: read.deep_view(),
            },
            Command::Method(name) => CommandView::Method(name@),
            Command::Cookie(cookie) => CommandView::Cookie(cookie@),
            Command::CookieJar { file_name } => CommandView::CookieJar { file_name: file_name@ },
            Command::JunkSessionCookies => CommandView::JunkSessionCookies,
            Command::OutputHeader => CommandView::OutputHeader,
            Command::OutputHeaderAndData => CommandView::OutputHeaderAndData,
            Command::DumpHeader { file_name } => CommandView::DumpHeader { file_name: file_name@ },
        }
    }
}

impl DeepView for Command {
    type V = CommandView;

    open spec fn deep_view(&self) -> CommandView {
        self@
    }
}

/// Whether the argument is a flag that takes the next argument as its value.
pub open spec fn takes_value(arg: Seq<char>) -> bool {
    arg == "-X"@ || arg == "-H"@ || arg == "-d"@ || arg == "-b"@
}

/// The command of a flag and its value.
pub open spec fn valued_command(flag: Seq<char>, value: Seq<char>) -> CommandView
    recommends
        takes_value(flag),
{
    if flag == "-X"@ {
        CommandView::Method(value)
    } else if flag == "-H"@ {
        CommandView::Header(value)
    } else if flag == "-d"@ {
        CommandView::Data(value)
    } else {
        CommandView::Cookie(value)
    }
}

/// The command of an argument that takes no value: `-0` asks for HTTP/1.0,
/// anything else is the URL.
pub open spec fn lone_command(arg: Seq<char>) -> CommandView {
    if arg == "-0"@ {
        CommandView::Version(Version::Http10)
    } else {
        CommandView::Url(arg)
    }
}

/// The commands of an argument list, read from left to right. A flag that
/// takes a value takes the next argument, whatever it is; where there is none
/// the whole list is refused.
pub open spec fn decoded(args: Seq<Seq<char>>) -> Result<Seq<CommandView>, ErrorView>
    decreases args.len(),
{
    if args.len() == 0 {
        Ok(seq![])
    } else if takes_value(args[0]) {
        if args.len() == 1 {
            Err(ErrorView::MissingArgument(args[0]))
        } else {
            match decoded(args.skip(2)) {
                Ok(rest) => Ok(seq![valued_command(args[0], args[1])] + rest),
                Err(error) => Err(error),
            }
        }
    } else {
        match decoded(args.skip(1)) {
            Ok(rest) => Ok(seq![lone_command(args[0])] + rest),
            Err(error) => Err(error),
        }
    }
}

/// What decoding gives when the commands `done` stand for the arguments
/// before some place and the arguments from that place on are `rest`.
spec fn decoded_after(done: Seq<CommandView>, rest: Seq<Seq<char>>) -> Result<
    Seq<CommandView>,
    ErrorView,
> {
    match decoded(rest) {
        Ok(commands) => Ok(done + commands),
        Err(error) => Err(error),
    }
}

/// Decodes the argument list into commands.
pub fn parse_to_commands(args: Vec<String>) -> (r: Result<Vec<Command>, Error>)
    ensures
        match decoded(args.deep_view()) {
            Ok(commands) => r matches Ok(list) && list.deep_view() == commands,
            Err(error) => r matches Err(e) && e@ == error,
        },
{
    let ghost all = args.deep_view();
    let mut commands: Vec<Command> = Vec::new();
    let mut i: usize = 0;
    assert(all.skip(0) =~= all);
    assert(Seq::<CommandView>::empty() + decoded(all)->Ok_0 =~= decoded(all)->Ok_0);
    while i < args.len()
        invariant
            i <= args.len(),
            all == args.deep_view(),
            decoded(all) == decoded_after(commands.deep_view(), all.skip(i as int)),
        decreases args.len() - i,
    {
        let ghost done = commands.deep_view();
        let ghost rest = all.skip(i as int);
        let arg: &str = args[i].as_str();
        assert(rest[0] == arg@);
        let x = str_eq(arg, "-X");
        let h = str_eq(arg, "-H");
        let d = str_eq(arg, "-d");
        let b = str_eq(arg, "-b");
        let command = if x || h || d || b {
            if i + 1 >= args.len() {
                assert(rest.len() == 1);
                return Err(Error::MissingArgument(arg.to_string()));
            }
            i = i + 1;
            let value = args[i].as_str().to_string();
            assert(rest[1] == value@);
            assert(rest.skip(2) =~= all.skip(i + 1));
            if x {
                Command::Method(value)
            } else if h {
                Command::Header(value)
            } else if d {
                Command::Data(value)
            } else {
                Command::Cookie(value)
            }
        } else {
            assert(rest.skip(1) =~= all.skip(i + 1));
            if str_eq(arg, "-0") {
                Command::Version(Version::Http10)
            } else {
                Command::Url(arg.to_string())
            }
        };
        commands.push(command);
        proof {
            let tail = decoded(all.skip(i + 1));
            assert(commands.deep_view() =~= done.push(command@));
            if tail is Ok {
                assert(done + (seq![command@] + tail->Ok_0) =~= done.push(command@) + tail->Ok_0);
            }
        }
        i = i + 1;
    }
    assert(commands.deep_view() + Seq::<CommandView>::empty() =~= commands.deep_view());
    Ok(commands)
}

/// The header of a raw line. The key is what stands before the first colon,
/// trimmed; the value is the rest of the line from that colon on, trimmed, so
/// the value begins with the colon. A line without a colon is no header.
pub open spec fn header_entry(line: Seq<char>) -> Option<EntryView> {
    match line.index_of_first(':') {
        Some(colon) => Some(
            EntryView {
                key: trimmed(line.subrange(0, colon)),
                value: trimmed(line.subrange(colon, line.len() as int)),
            },
        ),
        None => None,
    }
}

/// Splits a raw header line at its first colon.
pub fn split_header(line: &str) -> (r: Option<Entry>)
    ensures
        r.deep_view() == header_entry(line@),
{
    match find_char(line, ':') {
        None => None,
        Some(colon) => {
            let length = line.unicode_len();
            let key = trim(line.substring_char(0, colon));
            let value = trim(line.substring_char(colon, length));
            Some(Entry { key: key.to_string(), value: value.to_string() })
        },
    }
}

/// `Accept: */*`
pub open spec fn accept() -> EntryView {
    EntryView { key: http_header::ACCEPT@, value: "*/*"@ }
}

/// `Accept-Encoding: gzip, deflate, br`
pub open spec fn accept_encoding() -> EntryView {
    EntryView { key: http_header::ACCEPT_ENCODING@, value: "gzip, deflate, br"@ }
}

/// `Connection: Keep-Alive`
pub open spec fn connection() -> EntryView {
    EntryView { key: http_header::CONNECTION@, value: "Keep-Alive"@ }
}

/// `User-Agent: http-client`
pub open spec fn user_agent() -> EntryView {
    EntryView { key: http_header::USER_AGENT@, value: "http-client"@ }
}

/// `Content-Type: application/json; charset=utf-8`
pub open spec fn content_type() -> EntryView {
    EntryView { key: http_header::CONTENT_TYPE@, value: "application/json; charset=utf-8"@ }
}

/// `Content-Length` with the number of bytes of the body in UTF-8.
pub open spec fn content_length(data: Seq<char>) -> EntryView {
    EntryView { key: http_header::CONTENT_LENGTH@, value: decimal_text(encode_utf8(data).len()) }
}

/// Whether the method is one whose body is taken to be JSON: `POST` or `PUT`.
pub open spec fn sends_json(method: Option<Seq<char>>) -> bool {
    method == Some("POST"@) || method == Some("PUT"@)
}

/// The headers that are sent whatever the command line says: the four fixed
/// ones, then `Content-Type` for `POST` and `PUT`, then `Content-Length` where
/// there is a body.
pub open spec fn default_headers(method: Option<Seq<char>>, data: Option<Seq<char>>) -> Seq<
    EntryView,
> {
    seq![accept(), accept_encoding(), connection(), user_agent()] + (if sends_json(method) {
        seq![content_type()]
    } else {
        seq![]
    }) + (match data {
        Some(body) => seq![content_length(body)],
        None => seq![],
    })
}

/// The default `Content-Type` header.
pub fn default_content_type() -> (r: Entry)
    ensures
        r@ == content_type(),
{
    Entry {
        key: http_header::CONTENT_TYPE.to_string(),
        value: "application/json; charset=utf-8".to_string(),
    }
}

/// The keys of the default headers differ from one another: in their length,
/// or in their first letter.
pub(crate) proof fn lemma_default_keys_differ()
    ensures
        http_header::ACCEPT@.len() == 6,
        http_header::ACCEPT_ENCODING@.len() == 15,
        http_header::CONNECTION@.len() == 10,
        http_header::USER_AGENT@.len() == 10,
        http_header::CONTENT_TYPE@.len() == 12,
        http_header::CONTENT_LENGTH@.len() == 14,
        http_header::CONNECTION@ != http_header::USER_AGENT@,
{
    reveal_strlit("Accept");
    reveal_strlit("Accept-Encoding");
    reveal_strlit("Connection");
    reveal_strlit("User-Agent");
    reveal_strlit("Content-Type");
    reveal_strlit("Content-Length");
    assert(http_header::CONNECTION@[0] != http_header::USER_AGENT@[0]);
}

/// Builds the default headers for a method and a body. Each is put under its
/// key unless the key is there already; `Content-Length` takes the place of
/// one that is there.
pub fn build_default_headers(method: &Option<Method>, data: &Option<String>) -> (r: Vec<Entry>)
    ensures
        r.deep_view() == default_headers(method.deep_view(), data.deep_view()),
{
    proof {
        lemma_default_keys_differ();
    }
    let mut header_map = HeaderMap::new();

    if !header_map.contains_key(http_header::ACCEPT) {
        let entry = Entry { key: http_header::ACCEPT.to_string(), value: "*/*".to_string() };
        header_map.insert(entry);
    }
    assert(header_map@ =~= seq![accept()]);

    if !header_map.contains_key(http_header::ACCEPT_ENCODING) {
        let entry = Entry {
            key: http_header::ACCEPT_ENCODING.to_string(),
            value: "gzip, deflate, br".to_string(),
        };
        header_map.insert(entry);
    }
    assert(header_map@ =~= seq![accept(), accept_encoding()]);

    if !header_map.contains_key(http_header::CONNECTION) {
        let entry = Entry {
            key: http_header::CONNECTION.to_string(),
            value: "Keep-Alive".to_string(),
        };
        header_map.insert(entry);
    }
    assert(header_map@ =~= seq![accept(), accept_encoding(), connection()]);

    if !header_map.contains_key(http_header::USER_AGENT) {
        let entry = Entry {
            key: http_header::USER_AGENT.to_string(),
            value: "http-client".to_string(),
        };
        header_map.insert(entry);
    }
    assert(header_map@ =~= seq![accept(), accept_encoding(), connection(), user_agent()]);

    if !header_map.contains_key(http_header::CONTENT_TYPE) {
        match method {
            Some(method) => {
                if method.is_named("POST") || method.is_named("PUT") {
                    header_map.insert(default_content_type());
                }
            },
            None => {},
        }
    }
    let ghost fixed = seq![accept(), accept_encoding(), connection(), user_agent()] + (
    if sends_json(method.deep_view()) {
        seq![content_type()]
    } else {
        seq![]
    });
    assert(header_map@ =~= fixed);

    match data {
        Some(data) => {
            let length = Entry {
                key: http_header::CONTENT_LENGTH.to_string(),
                value: decimal(data.as_str().as_bytes().len() as u64),
            };
            header_map.insert(length);
            assert(header_map@ =~= fixed.push(content_length(data@)));
        },
        None => {},
    }
    assert(header_map@ =~= default_headers(method.deep_view(), data.deep_view()));
    header_map.into_values()
}

/// The request in the making.
#[derive(Debug, PartialEq, Eq)]
pub struct Cli {
    pub version: Option<Version>,
    pub url: Option<ParsedUrl>,
    pub headers: Vec<Entry>,
    pub data: Option<String>,
    pub method: Option<Method>,
}

/// The state by the characters of its texts.
pub struct CliView {
    pub version: Option<Version>,
    pub url: Option<ParsedUrlView>,
    pub headers: Seq<EntryView>,
    pub data: Option<Seq<char>>,
    pub method: Option<Seq<char>>,
}

impl View for Cli {
    type V = CliView;

    open spec fn view(&self) -> CliView {
        CliView {
            version: self.version,
            url: self.url.deep_view(),
            headers: self.headers.deep_view(),
            data: self.data.deep_view(),
            method: self.method.deep_view(),
        }
    }
}

/// The state before any command: nothing is set.
pub open spec fn blank() -> CliView {
    CliView { version: None, url: None, headers: seq![], data: None, method: None }
}

/// The state after one more command, or why the command is refused.
pub open spec fn applied(cli: CliView, command: CommandView) -> Result<CliView, ErrorView> {
    match command {
        CommandView::Version(version) => Ok(CliView { version: Some(version), ..cli }),
        CommandView::Url(text) => match parsed_url(text) {
            Some(url) => Ok(CliView { url: Some(url), ..cli }),
            None => Err(ErrorView::IllegalUrl(text)),
        },
        CommandView::Header(line) => match header_entry(line) {
            Some(entry) => Ok(CliView { headers: cli.headers.push(entry), ..cli }),
            None => Err(ErrorView::IllegalHeader(line)),
        },
        CommandView::Data(data) => Ok(CliView { data: Some(data), ..cli }),
        CommandView::Method(name) => if is_token(name) {
            Ok(CliView { method: Some(name), ..cli })
        } else {
            Err(ErrorView::IllegalMethod(name))
        },
        CommandView::Cookie(cookie) => Ok(
            CliView {
                headers: cli.headers.push(EntryView { key: http_header::COOKIE@, value: cookie }),
                ..cli
            },
        ),
        _ => Ok(cli),
    }
}

/// The state after the commands, taken in order; the first command that is
/// refused ends it.
pub open spec fn folded(cli: CliView, commands: Seq<CommandView>) -> Result<CliView, ErrorView>
    decreases commands.len(),
{
    if commands.len() == 0 {
        Ok(cli)
    } else {
        match applied(cli, commands.first()) {
            Ok(next) => folded(next, commands.drop_first()),
            Err(error) => Err(error),
        }
    }
}

/// The state a command list assembles to: the commands folded from the blank
/// state, and the default headers behind the headers the commands gave.
pub open spec fn assembled(commands: Seq<CommandView>) -> Result<CliView, ErrorView> {
    match folded(blank(), commands) {
        Ok(cli) => Ok(
            CliView { headers: cli.headers + default_headers(cli.method, cli.data), ..cli },
        ),
        Err(error) => Err(error),
    }
}

impl Cli {
    /// The state before any command.
    pub fn new() -> (r: Cli)
        ensures
            r@ == blank(),
    {
        let r = Cli { version: None, url: None, headers: Vec::new(), data: None, method: None };
        assert(r.headers.deep_view() =~= Seq::<EntryView>::empty());
        r
    }

    /// Takes one command into the state.
    pub fn apply(self, command: Command) -> (r: Result<Cli, Error>)
        ensures
            match applied(self@, command@) {
                Ok(next) => r matches Ok(cli) && cli@ == next,
                Err(error) => r matches Err(e) && e@ == error,
            },
    {
        let mut cli = self;
        match command {
            Command::Version(version) => {
                cli.version = Some(version);
            },
            Command::Url(text) => {
                match url_parse(text.as_str()) {
                    Some(url) => {
                        cli.url = Some(url);
                    },
                    None => {
                        return Err(Error::IllegalUrl(text));
                    },
                }
            },
            Command::Header(line) => {
                match split_header(line.as_str()) {
                    Some(entry) => {
                        cli.headers.push(entry);
                        assert(cli.headers.deep_view() =~= self.headers.deep_view().push(entry@));
                    },
                    None => {
                        return Err(Error::IllegalHeader(line));
                    },
                }
            },
            Command::Data(data) => {
                cli.data = Some(data);
            },
            Command::Form { .. } => {},
            Command::Method(name) => {
                match Method::from_str(name.as_str()) {
                    Some(method) => {
                        cli.method = Some(method);
                    },
                    None => {
                        return Err(Error::IllegalMethod(name));
                    },
                }
            },
            Command::Cookie(cookie) => {
                let entry = Entry { key: http_header::COOKIE.to_string(), value: cookie };
                cli.headers.push(entry);
                assert(cli.headers.deep_view() =~= self.headers.deep_view().push(entry@));
            },
            Command::CookieJar { .. } => {},
            Command::JunkSessionCookies => {},
            Command::OutputHeader => {},
            Command::OutputHeaderAndData => {},
            Command::DumpHeader { .. } => {},
        }
        Ok(cli)
    }
}

/// Folds the commands into the state and adds the default headers.
pub fn commands_to_cli(commands: Vec<Command>) -> (r: Result<Cli, Error>)
    ensures
        match assembled(commands.deep_view()) {
            Ok(state) => r matches Ok(cli) && cli@ == state,
            Err(error) => r matches Err(e) && e@ == error,
        },
{
    let ghost all = commands.deep_view();
    let mut cli = Cli::new();
    assert(all.skip(0) =~= all);
    for command in iter: commands
        invariant
            iter.seq() == commands@,
            all == commands.deep_view(),
            folded(blank(), all) == folded(cli@, all.skip(iter.index())),
    {
        assert(all.skip(iter.index()).first() == command@);
        assert(all.skip(iter.index()).drop_first() =~= all.skip(iter.index() + 1));
        match cli.apply(command) {
            Ok(next) => {
                cli = next;
            },
            Err(error) => {
                return Err(error);
            },
        }
    }
    let mut defaults = build_default_headers(&cli.method, &cli.data);
    let ghost folded_headers = cli.headers.deep_view();
    cli.headers.append(&mut defaults);
    assert(cli.headers.deep_view() =~= folded_headers + default_headers(
        cli.method.deep_view(),
        cli.data.deep_view(),
    ));
    Ok(cli)
}

/// Turns the arguments of the command line into the state of a request.
pub fn parse(args: Vec<String>) -> (r: Result<Cli, Error>)
    ensures
        match decoded(args.deep_view()) {
            Ok(commands) => match assembled(commands) {
                Ok(state) => r matches Ok(cli) && cli@ == state,
                Err(error) => r matches Err(e) && e@ == error,
            },
            Err(error) => r matches Err(e) && e@ == error,
        },
{
    match parse_to_commands(args) {
        Ok(commands) => commands_to_cli(commands),
        Err(error) => Err(error),
    }
}

/// The version a request goes out with: the one that was set, else HTTP/1.1.
pub open spec fn version_or_default(version: Option<Version>) -> Version {
    match version {
        Some(version) => version,
        None => Version::Http11,
    }
}

/// The method a request goes out with: the one that was set, else `GET`.
pub open spec fn method_or_default(method: Option<Seq<char>>) -> Seq<char> {
    match method {
        Some(name) => name,
        None => "GET"@,
    }
}

/// The request that a state and the addresses its URL resolved to make, or
/// why there is none. The `Host` header comes last. Of several failures the
/// first of these is reported: no URL, no host, an IPv6 host, a version
/// other than HTTP/1.0 and HTTP/1.1.
pub open spec fn request_of(cli: CliView, socket_addrs: Seq<SocketAddr>) -> Result<
    RequestView,
    ErrorView,
> {
    match cli.url {
        None => Err(ErrorView::UrlNotFound),
        Some(url) => match host_text(url.host, url.port) {
            Err(error) => Err(error),
            Ok(host) => match protocol_text(version_or_default(cli.version)) {
                None => Err(ErrorView::VersionNotSupported),
                Some(protocol) => Ok(
                    RequestView {
                        socket_addrs,
                        request_line: RequestLineView {
                            method: method_or_default(cli.method),
                            path: url.path,
                            protocol,
                        },
                        request_header: cli.headers.push(
                            EntryView { key: http_header::HOST@, value: host },
                        ),
                        request_data: cli.data,
                    },
                ),
            },
        },
    }
}

/// Builds the request from the state and the socket addresses that the
/// state's URL was resolved to.
pub fn cli_to_request(cli: Cli, socket_addrs: Vec<SocketAddr>) -> (r: Result<Request, Error>)
    ensures
        match request_of(cli@, socket_addrs@) {
            Ok(request) => r matches Ok(built) && built@ == request,
            Err(error) => r matches Err(e) && e@ == error,
        },
{
    let mut cli = cli;
    let ghost before = cli@;
    let url = match cli.url {
        None => {
            return Err(Error::UrlNotFound);
        },
        Some(url) => url,
    };
    let host = match host_header(&url.host, url.port) {
        Err(error) => {
            return Err(error);
        },
        Ok(host) => host,
    };
    cli.headers.push(Entry { key: http_header::HOST.to_string(), value: host });
    assert(cli.headers.deep_view() =~= before.headers.push(
        EntryView { key: http_header::HOST@, value: host@ },
    ));

    let version = match cli.version {
        None => Version::default(),
        Some(version) => version,
    };

    let protocol = match version.protocol() {
        None => {
            return Err(Error::VersionNotSupported);
        },
        Some(protocol) => protocol.to_string(),
    };

    let method = match cli.method {
        None => Method::default(),
        Some(method) => method,
    };

    Ok(
        Request {
            socket_addrs,
            request_line: RequestLine { method, path: url.path, protocol },
            request_header: cli.headers,
            request_data: cli.data,
        },
    )
}

} // verus!
