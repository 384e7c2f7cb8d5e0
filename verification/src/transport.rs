//! The exchanges of a request and what each of them yields.
//!
//! Opening sockets and speaking HTTP is left to the caller. This module
//! decides which exchanges a request consists of, and turns the outcome of an
//! exchange into the response that is reported for it. No outcome is fatal: a
//! failure yields a diagnostic and whatever was received before it.

use crate::request::{ProtocolKind, RequestSpec, RequestView};
use vstd::prelude::*;
use vstd::string::StringExecFns;

verus! {

/// One exchange with the target.
#[derive(Debug)]
pub enum SendStep {
    /// Write the payload to a byte stream and read the peer to its end.
    Stream { payload: Vec<u8> },
    /// Read the file, then exchange its content over a byte stream.
    FileTransfer { path: String },
    /// Send the payload as one datagram and await nothing.
    Datagram { payload: Vec<u8> },
    /// Fetch the URL with a GET.
    Get { url: String },
}

/// A [`SendStep`] in contracts.
pub enum StepView {
    Stream { payload: Seq<u8> },
    FileTransfer { path: Seq<char> },
    Datagram { payload: Seq<u8> },
    Get { url: Seq<char> },
}

impl View for SendStep {
    type V = StepView;

    open spec fn view(&self) -> StepView {
        match *self {
            SendStep::Stream { payload } => StepView::Stream { payload: payload@ },
            SendStep::FileTransfer { path } => StepView::FileTransfer { path: path@ },
            SendStep::Datagram { payload } => StepView::Datagram { payload: payload@ },
            SendStep::Get { url } => StepView::Get { url: url@ },
        }
    }
}

/// The view of an optional step.
pub open spec fn step_view(s: Option<SendStep>) -> Option<StepView> {
    match s {
        Some(step) => Some(step@),
        None => None,
    }
}

/// The message of a request, or no bytes where it has none.
pub open spec fn payload_of(message: Option<Seq<u8>>) -> Seq<u8> {
    match message {
        Some(m) => m,
        None => Seq::empty(),
    }
}

/// The URL of a GET: the scheme, then the address as the user typed it.
pub open spec fn get_url(secure: bool, address: Seq<char>) -> Seq<char> {
    if secure {
        "https://"@ + address
    } else {
        "http://"@ + address
    }
}

/// The exchanges of a request, in the order in which a job performs them.
///
/// A stream request with a file transfers the file and, where it has a message
/// too, sends the message after it: both, not one of the two. Without a file
/// it sends the message, or no bytes where there is none.
pub open spec fn plan_spec(v: RequestView) -> Seq<StepView> {
    match v.protocol {
        ProtocolKind::Tcp => match v.file_path {
            Some(path) => match v.message {
                Some(m) => seq![StepView::FileTransfer { path }, StepView::Stream { payload: m }],
                None => seq![StepView::FileTransfer { path }],
            },
            None => seq![StepView::Stream { payload: payload_of(v.message) }],
        },
        ProtocolKind::File => seq![StepView::FileTransfer { path: v.file_path->0 }],
        ProtocolKind::Udp => seq![StepView::Datagram { payload: payload_of(v.message) }],
        ProtocolKind::Http => seq![StepView::Get { url: get_url(false, v.address) }],
        ProtocolKind::Https => seq![StepView::Get { url: get_url(true, v.address) }],
    }
}

/// Every request has a first exchange, and none has more than two.
pub proof fn lemma_plan_length(v: RequestView)
    ensures
        1 <= plan_spec(v).len() <= 2,
{
}

/// The bytes of `message`, or none.
fn payload_copy(message: &Option<Vec<u8>>) -> (r: Vec<u8>)
    ensures
        r@ == payload_of(crate::request::bytes_view(*message)),
{
    match message {
        Some(m) => m.clone(),
        None => Vec::new(),
    }
}

/// The number of exchanges of a request.
pub fn step_count(spec: &RequestSpec) -> (n: usize)
    ensures
        n == plan_spec(spec@).len(),
{
    match spec.protocol() {
        ProtocolKind::Tcp => if spec.file_path().is_some() && spec.message().is_some() {
            2
        } else {
            1
        },
        _ => 1,
    }
}

/// The exchange at position `index` of a request's plan, if the plan is that
/// long.
pub fn send_step(spec: &RequestSpec, index: usize) -> (r: Option<SendStep>)
    ensures
        index < plan_spec(spec@).len() ==> step_view(r) == Some(plan_spec(spec@)[index as int]),
        index >= plan_spec(spec@).len() ==> r is None,
{
    let protocol = spec.protocol();
    if index >= step_count(spec) {
        return None;
    }
    match protocol {
        ProtocolKind::Tcp => match spec.file_path() {
            Some(path) => if index == 0 {
                Some(SendStep::FileTransfer { path: path.clone() })
            } else {
                Some(SendStep::Stream { payload: payload_copy(spec.message()) })
            },
            None => Some(SendStep::Stream { payload: payload_copy(spec.message()) }),
        },
        ProtocolKind::File => match spec.file_path() {
            Some(path) => Some(SendStep::FileTransfer { path: path.clone() }),
            None => None,
        },
        ProtocolKind::Udp => Some(SendStep::Datagram { payload: payload_copy(spec.message()) }),
        ProtocolKind::Http => {
            let mut url = String::from_str("http://");
            url.append(spec.address());
            Some(SendStep::Get { url })
        },
        ProtocolKind::Https => {
            let mut url = String::from_str("https://");
            url.append(spec.address());
            Some(SendStep::Get { url })
        },
    }
}

/// How an exchange over a byte stream ended.
#[derive(Debug)]
pub enum StreamOutcome {
    /// No connection could be opened.
    ConnectFailed { reason: String },
    /// The payload could not be written in full.
    WriteFailed { reason: String },
    /// Reading broke off; `partial` is what had arrived by then.
    ReadFailed { partial: Vec<u8>, reason: String },
    /// The peer closed the stream after sending `received`.
    Completed { received: Vec<u8> },
}

/// How the sending of a datagram ended.
#[derive(Debug)]
pub enum DatagramOutcome {
    /// No local socket could be bound.
    BindFailed { reason: String },
    /// The datagram could not be sent.
    SendFailed { reason: String },
    /// The datagram left.
    Sent,
}

/// How a GET ended. A status outside the 2xx range is no failure: its body
/// is the response.
#[derive(Debug)]
pub enum GetOutcome {
    /// The request failed below HTTP: no connection, no TLS session.
    RequestFailed { reason: String },
    /// The body broke off before its end.
    BodyFailed { reason: String },
    /// The whole body arrived.
    Completed { body: Vec<u8> },
}

/// What an exchange comes to: the response to report and, where the exchange
/// failed, the diagnostic to log.
#[derive(Debug)]
pub struct Exchange {
    pub response: Vec<u8>,
    pub diagnostic: Option<String>,
}

/// An [`Exchange`] in contracts.
pub struct ExchangeView {
    pub response: Seq<u8>,
    pub diagnostic: Option<Seq<char>>,
}

impl View for Exchange {
    type V = ExchangeView;

    open spec fn view(&self) -> ExchangeView {
        ExchangeView {
            response: self.response@,
            diagnostic: crate::request::text_view(self.diagnostic),
        }
    }
}

/// An exchange that failed for `reason` while doing `what`, with `response`
/// received before it failed.
pub open spec fn failure(what: Seq<char>, reason: Seq<char>, response: Seq<u8>) -> ExchangeView {
    ExchangeView { response, diagnostic: Some(what + ": "@ + reason) }
}

/// An exchange that went through and brought `response`.
pub open spec fn success(response: Seq<u8>) -> ExchangeView {
    ExchangeView { response, diagnostic: None }
}

/// What a stream exchange comes to. A failure to connect or to write leaves
/// no response; a failure while reading keeps what was read.
pub open spec fn stream_spec(outcome: StreamOutcome) -> ExchangeView {
    match outcome {
        StreamOutcome::ConnectFailed { reason } => failure(
            "Failed to connect to TCP server"@,
            reason@,
            Seq::empty(),
        ),
        StreamOutcome::WriteFailed { reason } => failure(
            "Failed to send TCP data"@,
            reason@,
            Seq::empty(),
        ),
        StreamOutcome::ReadFailed { partial, reason } => failure(
            "Failed to read response"@,
            reason@,
            partial@,
        ),
        StreamOutcome::Completed { received } => success(received@),
    }
}

/// What the sending of a datagram comes to: never a response, sent or not.
pub open spec fn datagram_spec(outcome: DatagramOutcome) -> ExchangeView {
    match outcome {
        DatagramOutcome::BindFailed { reason } => failure(
            "Failed to bind socket"@,
            reason@,
            Seq::empty(),
        ),
        DatagramOutcome::SendFailed { reason } => failure(
            "Failed to send UDP data"@,
            reason@,
            Seq::empty(),
        ),
        DatagramOutcome::Sent => success(Seq::empty()),
    }
}

/// What a GET comes to: the whole body, or nothing where anything failed.
pub open spec fn get_spec(outcome: GetOutcome) -> ExchangeView {
    match outcome {
        GetOutcome::RequestFailed { reason } => failure(
            "Failed to send HTTP request"@,
            reason@,
            Seq::empty(),
        ),
        GetOutcome::BodyFailed { reason } => failure(
            "Failed to read HTTP response"@,
            reason@,
            Seq::empty(),
        ),
        GetOutcome::Completed { body } => success(body@),
    }
}

/// What a file that could not be read comes to: no response, and no stream
/// is opened for it.
pub open spec fn unread_file_spec(reason: Seq<char>) -> ExchangeView {
    failure("Failed to read file"@, reason, Seq::empty())
}

/// Builds the exchange for a failure.
fn failed(what: &str, reason: &str, response: Vec<u8>) -> (r: Exchange)
    ensures
        r@ == failure(what@, reason@, response@),
{
    let mut text = String::from_str(what);
    text.append(": ");
    text.append(reason);
    Exchange { response, diagnostic: Some(text) }
}

/// Concludes a stream exchange.
pub fn conclude_stream(outcome: StreamOutcome) -> (r: Exchange)
    ensures
        r@ == stream_spec(outcome),
{
    match outcome {
        StreamOutcome::ConnectFailed { reason } => failed(
            "Failed to connect to TCP server",
            reason.as_str(),
            Vec::new(),
        ),
        StreamOutcome::WriteFailed { reason } => failed(
            "Failed to send TCP data",
            reason.as_str(),
            Vec::new(),
        ),
        StreamOutcome::ReadFailed { partial, reason } => failed(
            "Failed to read response",
            reason.as_str(),
            partial,
        ),
        StreamOutcome::Completed { received } => Exchange { response: received, diagnostic: None },
    }
}

/// Concludes the sending of a datagram.
pub fn conclude_datagram(outcome: DatagramOutcome) -> (r: Exchange)
    ensures
        r@ == datagram_spec(outcome),
        r@.response.len() == 0,
{
    match outcome {
        DatagramOutcome::BindFailed { reason } => failed(
            "Failed to bind socket",
            reason.as_str(),
            Vec::new(),
        ),
        DatagramOutcome::SendFailed { reason } => failed(
            "Failed to send UDP data",
            reason.as_str(),
            Vec::new(),
        ),
        DatagramOutcome::Sent => Exchange { response: Vec::new(), diagnostic: None },
    }
}

/// Concludes a GET.
pub fn conclude_get(outcome: GetOutcome) -> (r: Exchange)
    ensures
        r@ == get_spec(outcome),
{
    match outcome {
        GetOutcome::RequestFailed { reason } => failed(
            "Failed to send HTTP request",
            reason.as_str(),
            Vec::new(),
        ),
        GetOutcome::BodyFailed { reason } => failed(
            "Failed to read HTTP response",
            reason.as_str(),
            Vec::new(),
        ),
        GetOutcome::Completed { body } => Exchange { response: body, diagnostic: None },
    }
}

/// Concludes a file transfer whose file could not be read.
pub fn conclude_unread_file(reason: &str) -> (r: Exchange)
    ensures
        r@ == unread_file_spec(reason@),
{
    failed("Failed to read file", reason, Vec::new())
}

} // verus!
