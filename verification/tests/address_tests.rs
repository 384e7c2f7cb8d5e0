use netprobe::address::{
    brings_scheme, dotted_quad, parse_address, parse_host_port, resolve_with, without_www,
    AddressParseError, Endpoint, ParsedUrl,
};

fn chars(s: &str) -> Vec<char> {
    s.chars().collect()
}

fn endpoint(r: Result<Endpoint, AddressParseError>) -> (String, u16) {
    match r {
        Ok(e) => (e.host, e.port),
        Err(e) => panic!("refused: {:?}", e),
    }
}

fn refusal(r: Result<Endpoint, AddressParseError>) -> AddressParseError {
    match r {
        Ok(e) => panic!("accepted: {:?}", e),
        Err(e) => e,
    }
}

#[test]
fn ip_and_port_resolve_to_themselves() {
    assert_eq!(
        endpoint(parse_address("192.168.1.1:8080")),
        ("192.168.1.1".to_string(), 8080)
    );
}

#[test]
fn port_above_range_is_invalid_port() {
    assert_eq!(
        refusal(parse_address("192.168.1.1:99999")),
        AddressParseError::InvalidPort
    );
}

#[test]
fn octet_above_range_is_invalid_octet() {
    assert_eq!(
        refusal(parse_address("256.1.1.1:80")),
        AddressParseError::InvalidOctet
    );
}

#[test]
fn url_loses_www_and_gets_default_port() {
    assert_eq!(
        endpoint(parse_address("http://www.example.com")),
        ("example.com".to_string(), 80)
    );
}

#[test]
fn text_without_colon_is_invalid_format() {
    assert_eq!(
        refusal(parse_address("not a valid address")),
        AddressParseError::InvalidFormat
    );
}

#[test]
fn bare_host_gets_implicit_scheme() {
    assert_eq!(
        endpoint(parse_address("www.example.com")),
        ("example.com".to_string(), 80)
    );
    assert_eq!(
        endpoint(parse_address("example.com:8080")),
        ("example.com".to_string(), 8080)
    );
    assert_eq!(
        endpoint(parse_address("localhost:9000")),
        ("localhost".to_string(), 9000)
    );
}

#[test]
fn url_parser_normalises_the_host() {
    // The host comes back as the URL record spells it, not as it was typed.
    assert_eq!(
        endpoint(parse_address("HTTP://WWW.Example.COM:0081/index.html")),
        ("example.com".to_string(), 81)
    );
    assert_eq!(
        endpoint(parse_address("Example.ORG")),
        ("example.org".to_string(), 80)
    );
}

#[test]
fn default_port_of_the_scheme_counts_as_absent() {
    assert_eq!(
        endpoint(parse_address("https://example.com")),
        ("example.com".to_string(), 80)
    );
    assert_eq!(
        endpoint(parse_address("https://example.com:8443")),
        ("example.com".to_string(), 8443)
    );
    assert_eq!(
        endpoint(parse_address("http://example.com:80")),
        ("example.com".to_string(), 80)
    );
}

#[test]
fn url_without_host_is_missing_host() {
    assert_eq!(
        refusal(parse_address("file:///etc/hosts")),
        AddressParseError::MissingHost
    );
}

#[test]
fn url_reading_wins_over_ip_port() {
    let parsed = ParsedUrl {
        host: Some("www.wins.test".to_string()),
        port: Some(7),
    };
    assert_eq!(
        endpoint(resolve_with("10.0.0.1:99", Some(parsed))),
        ("wins.test".to_string(), 7)
    );
}

#[test]
fn parsed_url_without_host_or_port() {
    let no_host = ParsedUrl { host: None, port: Some(1) };
    assert_eq!(
        refusal(resolve_with("10.0.0.1:99", Some(no_host))),
        AddressParseError::MissingHost
    );
    let no_port = ParsedUrl { host: Some("h".to_string()), port: None };
    assert_eq!(endpoint(resolve_with("x", Some(no_port))), ("h".to_string(), 80));
}

#[test]
fn ip_port_reading_accepts() {
    assert_eq!(endpoint(resolve_with("1.2.3.4:80", None)), ("1.2.3.4".to_string(), 80));
    assert_eq!(endpoint(resolve_with("0.0.0.0:0", None)), ("0.0.0.0".to_string(), 0));
    assert_eq!(
        endpoint(resolve_with("255.255.255.255:65535", None)),
        ("255.255.255.255".to_string(), 65535)
    );
    assert_eq!(
        endpoint(resolve_with("001.02.3.+4:+00080", None)),
        ("001.02.3.+4".to_string(), 80)
    );
    assert_eq!(endpoint(parse_host_port("10.0.0.1:22")), ("10.0.0.1".to_string(), 22));
}

#[test]
fn ip_port_reading_refuses() {
    let cases = [
        ("", AddressParseError::InvalidFormat),
        ("1.2.3.4", AddressParseError::InvalidFormat),
        ("1.2.3:80", AddressParseError::InvalidOctet),
        ("1.2.3.4.5:80", AddressParseError::InvalidOctet),
        ("1..3.4:80", AddressParseError::InvalidOctet),
        ("1.2.3.256:80", AddressParseError::InvalidOctet),
        ("1.2.3.-4:80", AddressParseError::InvalidOctet),
        ("a.b.c.d:80", AddressParseError::InvalidOctet),
        (":80", AddressParseError::InvalidOctet),
        ("example.com:80", AddressParseError::InvalidOctet),
        ("1.2.3.4:", AddressParseError::InvalidPort),
        ("1.2.3.4:65536", AddressParseError::InvalidPort),
        ("1.2.3.4:80:90", AddressParseError::InvalidPort),
        ("1.2.3.4:http", AddressParseError::InvalidPort),
        ("1.2.3.4: 80", AddressParseError::InvalidPort),
        ("1.2.3:99999", AddressParseError::InvalidOctet),
    ];
    for (text, expected) in cases {
        assert_eq!(refusal(resolve_with(text, None)), expected, "{}", text);
    }
}

#[test]
fn resolution_never_reports_unrecognized() {
    for text in ["", ":", "::", "...", "a", "1.2.3.4:5", "http://", "x://y", "[::1]:80"] {
        if let Err(e) = parse_address(text) {
            assert_ne!(e, AddressParseError::Unrecognized, "{}", text);
        }
    }
}

#[test]
fn www_prefix_is_dropped_once() {
    assert_eq!(without_www("www.example.com"), "example.com");
    assert_eq!(without_www("www.www.example.com"), "www.example.com");
    assert_eq!(without_www("www."), "");
    assert_eq!(without_www("www"), "www");
    assert_eq!(without_www("wwwx.example.com"), "wwwx.example.com");
    assert_eq!(without_www("WWW.example.com"), "WWW.example.com");
    assert_eq!(without_www(""), "");
}

#[test]
fn scheme_mark_is_found_anywhere() {
    assert!(brings_scheme(&chars("http://x")));
    assert!(brings_scheme(&chars("://")));
    assert!(brings_scheme(&chars("a://")));
    assert!(!brings_scheme(&chars("")));
    assert!(!brings_scheme(&chars(":/")));
    assert!(!brings_scheme(&chars("http:/x")));
    assert!(!brings_scheme(&chars("1.2.3.4:80")));
}

#[test]
fn dotted_quads() {
    assert!(dotted_quad(&chars("1.2.3.4")));
    assert!(dotted_quad(&chars("+1.+2.+3.+4")));
    assert!(dotted_quad(&chars("000.000.000.000")));
    assert!(!dotted_quad(&chars("")));
    assert!(!dotted_quad(&chars("1.2.3")));
    assert!(!dotted_quad(&chars("1.2.3.")));
    assert!(!dotted_quad(&chars(".1.2.3")));
    assert!(!dotted_quad(&chars("1.2.3.4.")));
    assert!(!dotted_quad(&chars("1.2.3.4.5")));
    assert!(!dotted_quad(&chars("1.2.3.256")));
    assert!(!dotted_quad(&chars("1.2.3.+")));
}

#[test]
fn address_errors_have_their_messages() {
    assert_eq!(AddressParseError::MissingHost.message(), "Missing host in URL");
    assert_eq!(AddressParseError::InvalidFormat.message(), "Invalid address format");
    assert_eq!(AddressParseError::InvalidOctet.message(), "Invalid IP address octet");
    assert_eq!(AddressParseError::InvalidPort.message(), "Invalid port number");
    assert_eq!(AddressParseError::Unrecognized.message(), "Unrecognized address");
}

#[test]
fn endpoint_copy_is_equal() {
    let e = Endpoint { host: "h".to_string(), port: 5 };
    let c = e.duplicate();
    assert_eq!((c.host, c.port), ("h".to_string(), 5));
}
