use netprobe::request::{ProtocolKind, RequestSpec};
use netprobe::transport::{
    conclude_datagram, conclude_get, conclude_stream, conclude_unread_file, send_step,
    step_count, DatagramOutcome, GetOutcome, SendStep, StreamOutcome,
};

fn request(
    address: &str,
    protocol: ProtocolKind,
    message: Option<&[u8]>,
    file: Option<&str>,
) -> RequestSpec {
    RequestSpec::new(
        address.to_string(),
        protocol,
        message.map(|m| m.to_vec()),
        file.map(|f| f.to_string()),
        None,
    )
    .unwrap()
}

fn step_text(step: Option<SendStep>) -> String {
    match step {
        Some(SendStep::Stream { payload }) => format!("stream {:?}", payload),
        Some(SendStep::FileTransfer { path }) => format!("file {}", path),
        Some(SendStep::Datagram { payload }) => format!("datagram {:?}", payload),
        Some(SendStep::Get { url }) => format!("get {}", url),
        None => "none".to_string(),
    }
}

#[test]
fn stream_request_sends_its_message() {
    let spec = request("1.2.3.4:5", ProtocolKind::Tcp, Some(b"hi"), None);
    assert_eq!(step_count(&spec), 1);
    assert_eq!(step_text(send_step(&spec, 0)), "stream [104, 105]");
    assert_eq!(step_text(send_step(&spec, 1)), "none");
}

#[test]
fn stream_request_without_message_sends_no_bytes() {
    let spec = request("1.2.3.4:5", ProtocolKind::Tcp, None, None);
    assert_eq!(step_count(&spec), 1);
    assert_eq!(step_text(send_step(&spec, 0)), "stream []");
}

#[test]
fn stream_request_with_file_and_message_sends_both() {
    let spec = request("1.2.3.4:5", ProtocolKind::Tcp, Some(b"m"), Some("data.bin"));
    assert_eq!(step_count(&spec), 2);
    assert_eq!(step_text(send_step(&spec, 0)), "file data.bin");
    assert_eq!(step_text(send_step(&spec, 1)), "stream [109]");
    assert_eq!(step_text(send_step(&spec, 2)), "none");
    assert_eq!(step_text(send_step(&spec, usize::MAX)), "none");
}

#[test]
fn stream_request_with_file_alone_sends_the_file() {
    let spec = request("1.2.3.4:5", ProtocolKind::Tcp, None, Some("data.bin"));
    assert_eq!(step_count(&spec), 1);
    assert_eq!(step_text(send_step(&spec, 0)), "file data.bin");
    assert_eq!(step_text(send_step(&spec, 1)), "none");
}

#[test]
fn file_request_sends_the_file_alone() {
    let spec = request("1.2.3.4:5", ProtocolKind::File, Some(b"m"), Some("data.bin"));
    assert_eq!(step_count(&spec), 1);
    assert_eq!(step_text(send_step(&spec, 0)), "file data.bin");
    assert_eq!(step_text(send_step(&spec, 1)), "none");
}

#[test]
fn datagram_request_sends_one_datagram() {
    let spec = request("1.2.3.4:5", ProtocolKind::Udp, Some(b"ping"), None);
    assert_eq!(step_count(&spec), 1);
    assert_eq!(step_text(send_step(&spec, 0)), "datagram [112, 105, 110, 103]");
    let empty = request("1.2.3.4:5", ProtocolKind::Udp, None, None);
    assert_eq!(step_text(send_step(&empty, 0)), "datagram []");
}

#[test]
fn get_url_is_scheme_and_address() {
    let plain = request("example.com/a?b=1", ProtocolKind::Http, Some(b"ignored"), None);
    assert_eq!(step_count(&plain), 1);
    assert_eq!(step_text(send_step(&plain, 0)), "get http://example.com/a?b=1");
    let secure = request("example.com:8443", ProtocolKind::Https, None, Some("ignored"));
    assert_eq!(step_count(&secure), 1);
    assert_eq!(step_text(send_step(&secure, 0)), "get https://example.com:8443");
}

#[test]
fn stream_outcomes() {
    let x = conclude_stream(StreamOutcome::ConnectFailed { reason: "refused".to_string() });
    assert_eq!(x.response, Vec::<u8>::new());
    assert_eq!(x.diagnostic, Some("Failed to connect to TCP server: refused".to_string()));

    let x = conclude_stream(StreamOutcome::WriteFailed { reason: "broken pipe".to_string() });
    assert_eq!(x.response, Vec::<u8>::new());
    assert_eq!(x.diagnostic, Some("Failed to send TCP data: broken pipe".to_string()));

    let x = conclude_stream(StreamOutcome::ReadFailed {
        partial: vec![1, 2],
        reason: "reset".to_string(),
    });
    assert_eq!(x.response, vec![1, 2]);
    assert_eq!(x.diagnostic, Some("Failed to read response: reset".to_string()));

    let x = conclude_stream(StreamOutcome::Completed { received: vec![0, 255, 7] });
    assert_eq!(x.response, vec![0, 255, 7]);
    assert_eq!(x.diagnostic, None);
}

#[test]
fn datagram_outcomes_bring_no_response() {
    let x = conclude_datagram(DatagramOutcome::Sent);
    assert_eq!(x.response, Vec::<u8>::new());
    assert_eq!(x.diagnostic, None);

    let x = conclude_datagram(DatagramOutcome::SendFailed { reason: "unreachable".to_string() });
    assert_eq!(x.response, Vec::<u8>::new());
    assert_eq!(x.diagnostic, Some("Failed to send UDP data: unreachable".to_string()));

    let x = conclude_datagram(DatagramOutcome::BindFailed { reason: "in use".to_string() });
    assert_eq!(x.response, Vec::<u8>::new());
    assert_eq!(x.diagnostic, Some("Failed to bind socket: in use".to_string()));
}

#[test]
fn get_outcomes() {
    let x = conclude_get(GetOutcome::RequestFailed { reason: "tls".to_string() });
    assert_eq!(x.response, Vec::<u8>::new());
    assert_eq!(x.diagnostic, Some("Failed to send HTTP request: tls".to_string()));

    let x = conclude_get(GetOutcome::BodyFailed { reason: "eof".to_string() });
    assert_eq!(x.response, Vec::<u8>::new());
    assert_eq!(x.diagnostic, Some("Failed to read HTTP response: eof".to_string()));

    let x = conclude_get(GetOutcome::Completed { body: b"<html>".to_vec() });
    assert_eq!(x.response, b"<html>".to_vec());
    assert_eq!(x.diagnostic, None);
}

#[test]
fn unread_file_brings_no_response() {
    let x = conclude_unread_file("No such file or directory");
    assert_eq!(x.response, Vec::<u8>::new());
    assert_eq!(x.diagnostic, Some("Failed to read file: No such file or directory".to_string()));
}
