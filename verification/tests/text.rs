use http_client::decimal::{decimal, digit_str};
use http_client::error::Error;
use http_client::http_header;
use http_client::method::Method;
use http_client::response::decode_response;
use http_client::text::{find_char, str_eq, trim, trim_end_nul};
use http_client::version::Version;

#[test]
fn decimal_of_small_and_large_numbers() {
    assert_eq!(decimal(0), "0");
    assert_eq!(decimal(7), "7");
    assert_eq!(decimal(9), "9");
    assert_eq!(decimal(10), "10");
    assert_eq!(decimal(99), "99");
    assert_eq!(decimal(100), "100");
    assert_eq!(decimal(1024), "1024");
    assert_eq!(decimal(65535), "65535");
    assert_eq!(decimal(1048576), "1048576");
    assert_eq!(decimal(u64::MAX), "18446744073709551615");
}

#[test]
fn digits_are_their_characters() {
    let all: Vec<&str> = (0..10).map(digit_str).collect();
    assert_eq!(all, vec!["0", "1", "2", "3", "4", "5", "6", "7", "8", "9"]);
}

#[test]
fn equal_strings_are_equal() {
    assert!(str_eq("", ""));
    assert!(str_eq("-H", "-H"));
    assert!(str_eq("h\u{e9}", "h\u{e9}"));
    assert!(!str_eq("-H", "-h"));
    assert!(!str_eq("-H", "-H "));
    assert!(!str_eq("", "a"));
    assert!(!str_eq("abc", "abd"));
}

#[test]
fn trim_removes_white_space_at_both_ends() {
    assert_eq!(trim("  a b  "), "a b");
    assert_eq!(trim("\t\r\nx\u{a0}\u{3000}"), "x");
    assert_eq!(trim("x"), "x");
    assert_eq!(trim(""), "");
    assert_eq!(trim(" \t "), "");
    assert_eq!(trim(" \u{e9}t\u{e9} "), "\u{e9}t\u{e9}");
    assert_eq!(trim("\0 a"), "\0 a");
}

#[test]
fn trailing_nul_is_removed() {
    assert_eq!(trim_end_nul("abc\0\0\0"), "abc");
    assert_eq!(trim_end_nul("\0a\0b\0"), "\0a\0b");
    assert_eq!(trim_end_nul("\0\0"), "");
    assert_eq!(trim_end_nul(""), "");
    assert_eq!(trim_end_nul("abc"), "abc");
    assert_eq!(trim_end_nul("\u{e9}\0"), "\u{e9}");
}

#[test]
fn first_place_of_a_character() {
    assert_eq!(find_char("a:b:c", ':'), Some(1));
    assert_eq!(find_char(":", ':'), Some(0));
    assert_eq!(find_char("abc", ':'), None);
    assert_eq!(find_char("", ':'), None);
    assert_eq!(find_char("\u{e9}\u{e9}:", ':'), Some(2));
}

#[test]
fn response_is_decoded_and_stripped() {
    let mut buffer = vec![0u8; 64];
    let text = "HTTP/1.1 200 OK\r\n\r\nhi";
    buffer[..text.len()].copy_from_slice(text.as_bytes());
    assert_eq!(decode_response(&buffer), text);
    assert_eq!(decode_response(&[0u8; 16]), "");
    assert_eq!(decode_response(&[]), "");
}

#[test]
fn ill_formed_bytes_are_replaced() {
    assert_eq!(decode_response(&[b'a', 0xff, b'b', 0, 0]), "a\u{fffd}b");
    assert_eq!(decode_response(&[0xc3, 0xa9, 0xc3]), "\u{e9}\u{fffd}");
}

#[test]
fn leading_nul_stays_in_a_response() {
    assert_eq!(decode_response(&[0, b'a', 0]), "\0a");
}

#[test]
fn method_names_are_tokens() {
    for name in ["GET", "POST", "PUT", "DELETE", "QUERY", "get", "M-SEARCH", "a!#$%&'*+-.^_`|~9"] {
        let method = Method::from_str(name).unwrap();
        assert_eq!(method.as_str(), name);
        assert!(method.is_named(name));
    }
    for name in ["", "GE T", "GET\n", "G/T", "G\u{e9}T", "(GET)", "a,b", "a:b", "a\"b", "{}", "a@b"] {
        assert_eq!(Method::from_str(name), None);
    }
}

#[test]
fn long_method_names_are_kept() {
    let name = "ABCDEFGHIJKLMNOPQRSTUVWXYZ-abcdefghijklmnopqrstuvwxyz";
    assert_eq!(Method::from_str(name).unwrap().as_str(), name);
}

#[test]
fn method_is_compares_letter_for_letter() {
    let post = Method::from_str("POST").unwrap();
    assert!(post.is_named("POST"));
    assert!(!post.is_named("post"));
    assert!(!post.is_named("POS"));
    assert!(Method::default().is_named("GET"));
}

#[test]
fn protocol_tokens() {
    assert_eq!(Version::Http10.protocol(), Some("HTTP/1.0"));
    assert_eq!(Version::Http11.protocol(), Some("HTTP/1.1"));
    assert_eq!(Version::Http09.protocol(), None);
    assert_eq!(Version::H2.protocol(), None);
    assert_eq!(Version::H3.protocol(), None);
    assert_eq!(Version::default(), Version::Http11);
}

#[test]
fn header_names() {
    assert_eq!(http_header::ACCEPT, "Accept");
    assert_eq!(http_header::ACCEPT_ENCODING, "Accept-Encoding");
    assert_eq!(http_header::CONNECTION, "Connection");
    assert_eq!(http_header::CONTENT_LENGTH, "Content-Length");
    assert_eq!(http_header::CONTENT_TYPE, "Content-Type");
    assert_eq!(http_header::COOKIE, "Cookie");
    assert_eq!(http_header::HOST, "Host");
    assert_eq!(http_header::USER_AGENT, "User-Agent");
}

#[test]
fn failure_messages() {
    assert_eq!(
        Error::MissingArgument("-H".to_string()).message(),
        "argument is missing after -H"
    );
    assert_eq!(Error::IllegalUrl("x y".to_string()).message(), "url is illegal: x y");
    assert_eq!(Error::IllegalHeader("abc".to_string()).message(), "header is illegal: abc");
    assert_eq!(Error::IllegalMethod("a b".to_string()).message(), "method is illegal: a b");
    assert_eq!(Error::UrlNotFound.message(), "url is not found");
    assert_eq!(Error::HostMissing.message(), "host is missing");
    assert_eq!(Error::Ipv6NotSupported.message(), "IPv6 is not supported");
    assert_eq!(Error::VersionNotSupported.message(), "http version is not supported");
}
