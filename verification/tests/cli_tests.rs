use netprobe::cli::{parse_args, same_text, ArgumentError, Invocation};
use netprobe::request::{ProtocolKind, RequestError};

fn words(list: &[&str]) -> Vec<String> {
    list.iter().map(|w| w.to_string()).collect()
}

fn accepted(list: &[&str]) -> Invocation {
    match parse_args(&words(list)) {
        Ok(i) => i,
        Err(e) => panic!("refused: {:?}", e),
    }
}

fn refused(list: &[&str]) -> ArgumentError {
    match parse_args(&words(list)) {
        Ok(i) => panic!("accepted: {:?}", i),
        Err(e) => e,
    }
}

#[test]
fn target_and_mode_alone() {
    let i = accepted(&["1.2.3.4:80", "tcp"]);
    assert_eq!(i.address, "1.2.3.4:80");
    assert_eq!(i.protocol, ProtocolKind::Tcp);
    assert_eq!(i.message, None);
    assert_eq!(i.file, None);
    assert_eq!(i.count, 1);
    assert_eq!(i.save, None);
}

#[test]
fn all_flags() {
    let i = accepted(&[
        "example.com", "https", "--save", "out", "--count", "5", "--file", "f.bin", "--message",
        "hi there",
    ]);
    assert_eq!(i.address, "example.com");
    assert_eq!(i.protocol, ProtocolKind::Https);
    assert_eq!(i.message, Some("hi there".to_string()));
    assert_eq!(i.file, Some("f.bin".to_string()));
    assert_eq!(i.count, 5);
    assert_eq!(i.save, Some("out".to_string()));
}

#[test]
fn later_flag_stands() {
    let i = accepted(&["a", "udp", "--count", "2", "--message", "x", "--count", "7", "--message", "y"]);
    assert_eq!(i.count, 7);
    assert_eq!(i.message, Some("y".to_string()));
}

#[test]
fn a_flag_word_can_be_a_value() {
    let i = accepted(&["a", "tcp", "--message", "--file"]);
    assert_eq!(i.message, Some("--file".to_string()));
    assert_eq!(i.file, None);
}

#[test]
fn count_bounds() {
    assert_eq!(accepted(&["a", "tcp", "--count", "0"]).count, 0);
    assert_eq!(accepted(&["a", "tcp", "--count", "+3"]).count, 3);
    assert_eq!(accepted(&["a", "tcp", "--count", "4294967295"]).count, u32::MAX);
    assert_eq!(refused(&["a", "tcp", "--count", "4294967296"]), ArgumentError::InvalidCount);
    assert_eq!(refused(&["a", "tcp", "--count", "five"]), ArgumentError::InvalidCount);
    assert_eq!(refused(&["a", "tcp", "--count", "-1"]), ArgumentError::InvalidCount);
    assert_eq!(refused(&["a", "tcp", "--count", ""]), ArgumentError::InvalidCount);
}

#[test]
fn refusals() {
    assert_eq!(refused(&[]), ArgumentError::MissingAddress);
    assert_eq!(refused(&["a"]), ArgumentError::MissingMode);
    assert_eq!(refused(&["a", "TCP"]), ArgumentError::UnknownMode);
    assert_eq!(refused(&["a", "ftp", "--bogus"]), ArgumentError::UnknownMode);
    assert_eq!(refused(&["a", "tcp", "--bogus", "v"]), ArgumentError::UnknownFlag);
    assert_eq!(refused(&["a", "tcp", "message"]), ArgumentError::UnknownFlag);
    assert_eq!(refused(&["a", "tcp", "--Message", "m"]), ArgumentError::UnknownFlag);
    assert_eq!(refused(&["a", "tcp", "--message"]), ArgumentError::MissingValue);
    assert_eq!(refused(&["a", "tcp", "--save", "s", "--count"]), ArgumentError::MissingValue);
    assert_eq!(refused(&["a", "tcp", "--count", "x", "--bogus"]), ArgumentError::InvalidCount);
    assert_eq!(refused(&["a", "tcp", "--message", "m", "extra"]), ArgumentError::UnknownFlag);
}

#[test]
fn argument_errors_have_their_messages() {
    assert_eq!(ArgumentError::MissingAddress.message(), "Missing target address");
    assert_eq!(ArgumentError::MissingMode.message(), "Missing mode");
    assert_eq!(
        ArgumentError::UnknownMode.message(),
        "Invalid mode. Use 'tcp', 'udp', 'http' or 'https'"
    );
    assert_eq!(ArgumentError::UnknownFlag.message(), "Unknown flag");
    assert_eq!(ArgumentError::MissingValue.message(), "Missing value after flag");
    assert_eq!(ArgumentError::InvalidCount.message(), "Invalid count");
}

#[test]
fn invocation_becomes_a_request() {
    let spec = accepted(&["h:1", "tcp", "--message", "h\u{e9}", "--file", "f", "--save", "s"])
        .into_request()
        .unwrap();
    assert_eq!(spec.address(), "h:1");
    assert_eq!(spec.protocol(), ProtocolKind::Tcp);
    assert_eq!(spec.message(), &Some(vec![104, 0xc3, 0xa9]));
    assert_eq!(spec.file_path(), &Some("f".to_string()));
    assert_eq!(spec.save_path(), &Some("s".to_string()));
}

#[test]
fn datagram_with_file_is_refused_before_dispatch() {
    let r = accepted(&["h:1", "udp", "--file", "f"]).into_request();
    assert_eq!(r.err(), Some(RequestError::UdpFileUnsupported));
}

#[test]
fn texts_are_compared_whole() {
    assert!(same_text("", ""));
    assert!(same_text("--file", "--file"));
    assert!(!same_text("--file", "--fil"));
    assert!(!same_text("--file", "--filE"));
    assert!(!same_text("a", ""));
}
