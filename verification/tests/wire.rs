use http_client::cli::{cli_to_request, parse, Cli};
use http_client::error::Error;
use http_client::location::{host_header, ipv4_string, Host, ParsedUrl};
use http_client::method::Method;
use http_client::request::{Entry, Request, RequestLine, SocketAddr, HTTP_10, HTTP_11};
use http_client::version::Version;

fn argv(list: &[&str]) -> Vec<String> {
    list.iter().map(|s| s.to_string()).collect()
}

fn entry(key: &str, value: &str) -> Entry {
    Entry { key: key.to_string(), value: value.to_string() }
}

fn state(host: Option<Host>, port: Option<u16>) -> Cli {
    Cli {
        version: None,
        url: Some(ParsedUrl {
            source: "http://somewhere/".to_string(),
            path: "/p".to_string(),
            host,
            port,
        }),
        headers: vec![entry("A", "b")],
        data: None,
        method: None,
    }
}

#[test]
fn post_with_body() {
    let cli = parse(argv(&["http://example.com/path", "-X", "POST", "-d", "{\"a\":1}"])).unwrap();
    let request = cli_to_request(cli, Vec::new()).unwrap();
    assert_eq!(request.request_line.to_message(), "POST /path HTTP/1.1\r\n");
    assert!(request
        .request_header
        .contains(&entry("Content-Type", "application/json; charset=utf-8")));
    assert!(request.request_header.contains(&entry("Content-Length", "7")));
    assert_eq!(request.request_data, Some("{\"a\":1}".to_string()));
    assert_eq!(
        request.to_message(),
        "POST /path HTTP/1.1\r\n\
         Accept: */*\r\n\
         Accept-Encoding: gzip, deflate, br\r\n\
         Connection: Keep-Alive\r\n\
         User-Agent: http-client\r\n\
         Content-Type: application/json; charset=utf-8\r\n\
         Content-Length: 7\r\n\
         Host: example.com\r\n\
         \r\n\
         {\"a\":1}"
    );
}

#[test]
fn post_with_body_of_eight_bytes() {
    let cli = parse(argv(&["http://example.com/path", "-X", "POST", "-d", "{\"a\": 1}"])).unwrap();
    let request = cli_to_request(cli, Vec::new()).unwrap();
    assert!(request.request_header.contains(&entry("Content-Length", "8")));
    assert!(request.to_message().ends_with("\r\n\r\n{\"a\": 1}"));
}

#[test]
fn http_1_0_get() {
    let cli = parse(argv(&["-0", "http://127.0.0.1:8888/"])).unwrap();
    let request = cli_to_request(cli, Vec::new()).unwrap();
    assert_eq!(request.request_line.to_message(), "GET / HTTP/1.0\r\n");
    assert_eq!(
        request.to_message(),
        "GET / HTTP/1.0\r\n\
         Accept: */*\r\n\
         Accept-Encoding: gzip, deflate, br\r\n\
         Connection: Keep-Alive\r\n\
         User-Agent: http-client\r\n\
         Host: 127.0.0.1:8888\r\n\
         \r\n"
    );
}

#[test]
fn request_line_is_method_path_protocol() {
    let line = RequestLine {
        method: Method::from_str("OPTIONS").unwrap(),
        path: "/a/b%20c".to_string(),
        protocol: HTTP_11.to_string(),
    };
    assert_eq!(line.to_message(), "OPTIONS /a/b%20c HTTP/1.1\r\n");
    let other = RequestLine {
        method: Method::default(),
        path: String::new(),
        protocol: HTTP_10.to_string(),
    };
    assert_eq!(other.to_message(), "GET  HTTP/1.0\r\n");
}

#[test]
fn entry_is_key_colon_space_value() {
    assert_eq!(entry("Host", "example.com").to_message(), "Host: example.com\r\n");
    assert_eq!(entry("", "").to_message(), ": \r\n");
    assert_eq!(entry("X", ": y").to_message(), "X: : y\r\n");
}

#[test]
fn message_keeps_header_order_and_body() {
    let request = Request {
        socket_addrs: vec![SocketAddr::V4 { octets: [10, 0, 0, 1], port: 80 }],
        request_line: RequestLine {
            method: Method::from_str("PUT").unwrap(),
            path: "/x".to_string(),
            protocol: "HTTP/1.1".to_string(),
        },
        request_header: vec![entry("B", "2"), entry("A", "1"), entry("B", "3")],
        request_data: Some("line1\r\nline2\u{e9}".to_string()),
    };
    assert_eq!(
        request.to_message(),
        "PUT /x HTTP/1.1\r\nB: 2\r\nA: 1\r\nB: 3\r\n\r\nline1\r\nline2\u{e9}"
    );
}

#[test]
fn message_without_headers_and_body() {
    let request = Request {
        socket_addrs: Vec::new(),
        request_line: RequestLine {
            method: Method::default(),
            path: "/".to_string(),
            protocol: "HTTP/1.1".to_string(),
        },
        request_header: Vec::new(),
        request_data: None,
    };
    assert_eq!(request.to_message(), "GET / HTTP/1.1\r\n\r\n");
}

#[test]
fn same_arguments_same_bytes() {
    let list = ["-b", "a=1", "http://example.com:8080/p?q", "-H", "X: y", "-X", "PUT", "-d", "data"];
    let first = cli_to_request(parse(argv(&list)).unwrap(), Vec::new()).unwrap().to_message();
    for _ in 0..20 {
        let addrs = vec![SocketAddr::V4 { octets: [1, 2, 3, 4], port: 8080 }];
        let again = cli_to_request(parse(argv(&list)).unwrap(), addrs).unwrap().to_message();
        assert_eq!(first.as_bytes(), again.as_bytes());
    }
    assert_eq!(
        first,
        "PUT /p HTTP/1.1\r\n\
         Cookie: a=1\r\n\
         X: : y\r\n\
         Accept: */*\r\n\
         Accept-Encoding: gzip, deflate, br\r\n\
         Connection: Keep-Alive\r\n\
         User-Agent: http-client\r\n\
         Content-Type: application/json; charset=utf-8\r\n\
         Content-Length: 4\r\n\
         Host: example.com:8080\r\n\
         \r\n\
         data"
    );
}

#[test]
fn host_header_formats() {
    let domain = Some(Host::Domain("example.com".to_string()));
    assert_eq!(host_header(&domain, Some(8080)), Ok("example.com:8080".to_string()));
    assert_eq!(host_header(&domain, None), Ok("example.com".to_string()));
    let address = Some(Host::Ipv4([127, 0, 0, 1]));
    assert_eq!(host_header(&address, None), Ok("127.0.0.1".to_string()));
    assert_eq!(host_header(&address, Some(65535)), Ok("127.0.0.1:65535".to_string()));
    assert_eq!(host_header(&address, Some(0)), Ok("127.0.0.1:0".to_string()));
}

#[test]
fn host_header_refuses_ipv6_and_no_host() {
    let v6 = Some(Host::Ipv6([0, 0, 0, 0, 0, 0, 0, 1]));
    assert_eq!(host_header(&v6, None), Err(Error::Ipv6NotSupported));
    assert_eq!(host_header(&v6, Some(80)), Err(Error::Ipv6NotSupported));
    assert_eq!(host_header(&None, Some(80)), Err(Error::HostMissing));
    assert_eq!(host_header(&None, None), Err(Error::HostMissing));
}

#[test]
fn ipv4_in_dotted_decimal() {
    assert_eq!(ipv4_string(&[0, 0, 0, 0]), "0.0.0.0");
    assert_eq!(ipv4_string(&[255, 255, 255, 255]), "255.255.255.255");
    assert_eq!(ipv4_string(&[192, 168, 10, 9]), "192.168.10.9");
}

#[test]
fn ipv6_url_fails() {
    let cli = parse(argv(&["http://[::1]:8080/"])).unwrap();
    assert_eq!(
        cli.url.as_ref().unwrap().host,
        Some(Host::Ipv6([0, 0, 0, 0, 0, 0, 0, 1]))
    );
    assert_eq!(cli_to_request(cli, Vec::new()), Err(Error::Ipv6NotSupported));
    let plain = parse(argv(&["http://[2001:db8::2]/"])).unwrap();
    assert_eq!(cli_to_request(plain, Vec::new()), Err(Error::Ipv6NotSupported));
}

#[test]
fn url_without_host_fails() {
    let cli = parse(argv(&["data:text/plain,Stuff"])).unwrap();
    assert_eq!(cli.url.as_ref().unwrap().host, None);
    assert_eq!(cli_to_request(cli, Vec::new()), Err(Error::HostMissing));
}

#[test]
fn missing_url_fails() {
    let cli = parse(argv(&["-X", "GET"])).unwrap();
    assert_eq!(cli_to_request(cli, Vec::new()), Err(Error::UrlNotFound));
}

#[test]
fn other_versions_are_not_supported() {
    for version in [Version::Http09, Version::H2, Version::H3] {
        let mut cli = state(Some(Host::Domain("h".to_string())), None);
        cli.version = Some(version);
        assert_eq!(cli_to_request(cli, Vec::new()), Err(Error::VersionNotSupported));
    }
}

#[test]
fn failures_come_in_order() {
    let mut no_url = state(None, None);
    no_url.url = None;
    no_url.version = Some(Version::H2);
    assert_eq!(cli_to_request(no_url, Vec::new()), Err(Error::UrlNotFound));
    let mut no_host = state(None, None);
    no_host.version = Some(Version::H2);
    assert_eq!(cli_to_request(no_host, Vec::new()), Err(Error::HostMissing));
    let mut v6 = state(Some(Host::Ipv6([1, 2, 3, 4, 5, 6, 7, 8])), Some(1));
    v6.version = Some(Version::H3);
    assert_eq!(cli_to_request(v6, Vec::new()), Err(Error::Ipv6NotSupported));
}

#[test]
fn request_takes_state_and_addresses() {
    let mut cli = state(Some(Host::Ipv4([10, 1, 2, 3])), Some(81));
    cli.version = Some(Version::Http10);
    cli.method = Method::from_str("HEAD");
    cli.data = Some("d".to_string());
    let addrs = vec![
        SocketAddr::V4 { octets: [10, 1, 2, 3], port: 81 },
        SocketAddr::V6 { segments: [0, 0, 0, 0, 0, 0, 0, 1], port: 81, flowinfo: 0, scope_id: 0 },
    ];
    let request = cli_to_request(cli, addrs.clone()).unwrap();
    assert_eq!(request.socket_addrs, addrs);
    assert_eq!(request.request_line.method.as_str(), "HEAD");
    assert_eq!(request.request_line.path, "/p");
    assert_eq!(request.request_line.protocol, "HTTP/1.0");
    assert_eq!(request.request_header, vec![entry("A", "b"), entry("Host", "10.1.2.3:81")]);
    assert_eq!(request.request_data, Some("d".to_string()));
}

#[test]
fn defaults_are_get_and_http_1_1() {
    let request = cli_to_request(state(Some(Host::Domain("h".to_string())), None), Vec::new())
        .unwrap();
    assert_eq!(request.request_line.method.as_str(), "GET");
    assert_eq!(request.request_line.protocol, "HTTP/1.1");
    assert_eq!(request.request_data, None);
}

#[test]
fn default_port_is_left_out_of_host() {
    let cli = parse(argv(&["http://example.com:80/a b?x=1"])).unwrap();
    let request = cli_to_request(cli, Vec::new()).unwrap();
    assert_eq!(request.request_line.path, "/a%20b");
    assert_eq!(request.request_header.last(), Some(&entry("Host", "example.com")));
}

#[test]
fn last_url_wins() {
    let cli = parse(argv(&["http://one.example/1", "http://two.example/2"])).unwrap();
    let request = cli_to_request(cli, Vec::new()).unwrap();
    assert_eq!(request.request_line.path, "/2");
    assert_eq!(request.request_header.last(), Some(&entry("Host", "two.example")));
}
