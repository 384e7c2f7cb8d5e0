//! The response sink: what is shown of a response and what is kept of it.
//!
//! A response is shown as text, with every byte sequence that is no UTF-8
//! replaced, and kept as the bytes that came in. Writing to the terminal and
//! to the file is left to the caller.

use crate::request::text_view;
use vstd::prelude::*;
use vstd::string::StringExecFns;
use vstd::utf8::{decode_utf8, valid_utf8};

verus! {

/// The order to keep a response: the raw bytes, and the file for them.
#[derive(Debug)]
pub struct SaveOrder {
    pub path: String,
    pub bytes: Vec<u8>,
}

/// What the sink does with one response.
#[derive(Debug)]
pub struct Report {
    /// The text for standard output.
    pub text: String,
    /// The file to create or overwrite, where the request names one.
    pub save: Option<SaveOrder>,
}

/// A [`Report`] in contracts; a save order is its path and its bytes.
pub struct ReportView {
    pub text: Seq<char>,
    pub save: Option<(Seq<char>, Seq<u8>)>,
}

impl View for Report {
    type V = ReportView;

    open spec fn view(&self) -> ReportView {
        ReportView {
            text: self.text@,
            save: match self.save {
                Some(order) => Some((order.path@, order.bytes@)),
                None => None,
            },
        }
    }
}

/// The label in front of every response that is shown.
pub open spec fn label() -> Seq<char> {
    "Received response:\n"@
}

/// The text that std's lossy UTF-8 decoding gives for `bytes`.
pub uninterp spec fn lossy_text(bytes: Seq<u8>) -> Seq<char>;

/// Decodes `bytes` with `String::from_utf8_lossy`.
///
/// Trusted, not proved: the result is the decoder's answer for `bytes`, which
/// depends on `bytes` alone, and bytes that are UTF-8 throughout decode to
/// the text they encode. Nothing is claimed about where replacement
/// characters go in other input.
#[verifier::external_body]
fn decode_lossy(bytes: &[u8]) -> (r: String)
    ensures
        r@ == lossy_text(bytes@),
        valid_utf8(bytes@) ==> r@ == decode_utf8(bytes@),
{
    String::from_utf8_lossy(bytes).into_owned()
}

/// The report of `response`, given the text it decodes to: the label and the
/// text are shown; the bytes of the response, not the text, are kept.
pub open spec fn report_spec(
    response: Seq<u8>,
    save_path: Option<Seq<char>>,
    decoded: Seq<char>,
) -> ReportView {
    ReportView {
        text: label() + decoded,
        save: match save_path {
            Some(path) => Some((path, response)),
            None => None,
        },
    }
}

/// Composes the report of a response that has been decoded to `decoded`.
pub fn compose_report(response: Vec<u8>, save_path: Option<String>, decoded: &str) -> (r: Report)
    ensures
        r@ == report_spec(response@, text_view(save_path), decoded@),
{
    let mut text = String::from_str("Received response:\n");
    text.append(decoded);
    let save = match save_path {
        Some(path) => Some(SaveOrder { path, bytes: response }),
        None => None,
    };
    Report { text, save }
}

/// The report of a response: its lossy decoding behind the label, and, where
/// `save_path` names a file, the order to keep the raw bytes there.
pub fn plan_report(response: Vec<u8>, save_path: Option<String>) -> (r: Report)
    ensures
        r@ == report_spec(response@, text_view(save_path), lossy_text(response@)),
        valid_utf8(response@) ==> r@.text == label() + decode_utf8(response@),
{
    let decoded = decode_lossy(response.as_slice());
    compose_report(response, save_path, decoded.as_str())
}

/// What is kept does not depend on what is shown: whatever text the response
/// decodes to, the bytes for the file are the bytes of the response, and
/// without a path nothing is kept.
pub proof fn lemma_saved_bytes_are_raw(
    response: Seq<u8>,
    save_path: Option<Seq<char>>,
    decoded: Seq<char>,
)
    ensures
        save_path matches Some(path) ==> report_spec(response, save_path, decoded).save == Some(
            (path, response),
        ),
        save_path is None ==> report_spec(response, save_path, decoded).save is None,
{
}

/// How the keeping of a response ended.
#[derive(Debug)]
pub enum SaveOutcome {
    /// The file could not be created.
    CreateFailed { reason: String },
    /// The bytes could not be written in full.
    WriteFailed { reason: String },
    /// The file holds the response.
    Saved,
}

/// The line that goes with a save: `Ok` for the notice of success, `Err` for
/// the diagnostic of a failure.
pub open spec fn save_notice_spec(path: Seq<char>, outcome: SaveOutcome) -> Result<
    Seq<char>,
    Seq<char>,
> {
    match outcome {
        SaveOutcome::CreateFailed { reason } => Err("Failed to create file: "@ + reason@),
        SaveOutcome::WriteFailed { reason } => Err("Failed to save response: "@ + reason@),
        SaveOutcome::Saved => Ok("Response saved to "@ + path),
    }
}

/// The view of a notice.
pub open spec fn notice_view(n: Result<String, String>) -> Result<Seq<char>, Seq<char>> {
    match n {
        Ok(t) => Ok(t@),
        Err(t) => Err(t@),
    }
}

/// The line to print after a save was tried: a notice for standard output,
/// or a diagnostic for the error stream. A failure is never more than that.
pub fn save_notice(path: &str, outcome: SaveOutcome) -> (r: Result<String, String>)
    ensures
        notice_view(r) == save_notice_spec(path@, outcome),
{
    match outcome {
        SaveOutcome::CreateFailed { reason } => {
            let mut text = String::from_str("Failed to create file: ");
            text.append(reason.as_str());
            Err(text)
        },
        SaveOutcome::WriteFailed { reason } => {
            let mut text = String::from_str("Failed to save response: ");
            text.append(reason.as_str());
            Err(text)
        },
        SaveOutcome::Saved => {
            let mut text = String::from_str("Response saved to ");
            text.append(path);
            Ok(text)
        },
    }
}

} // verus!
