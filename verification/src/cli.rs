//! The command line: a target, a mode word, and flags with one value each.
//!
//! ```text
//! <URL|IP:PORT> <tcp|udp|http|https> [--message <string>] [--file <path>]
//!                                      [--count <uint>] [--save <path>]
//! ```
//!
//! Where a flag is given twice, the later value stands.

use crate::request::{ProtocolKind, RequestError, RequestSpec, RequestView, mode_spec, rejection};
use crate::text::{chars_of, decimal_value, parse_decimal};
use vstd::prelude::*;
use vstd::string::{StrSliceExecFns, StringExecFns};
use vstd::utf8::encode_utf8;

verus! {

/// Largest number of repetitions that `--count` takes.
pub const MAX_COUNT: u32 = 0xffff_ffff;

/// Why a command line was refused.
#[derive(Clone, Copy, Debug, PartialEq, Eq, Structural)]
pub enum ArgumentError {
    /// There is no target.
    MissingAddress,
    /// There is no mode word.
    MissingMode,
    /// The mode word is none of `tcp`, `udp`, `http`, `https`.
    UnknownMode,
    /// A word stands where a flag is expected and is none.
    UnknownFlag,
    /// The last flag has no value behind it.
    MissingValue,
    /// The value of `--count` is no number, or too large a one.
    InvalidCount,
}

/// The diagnostic that goes with an argument error.
pub open spec fn argument_error_text(e: ArgumentError) -> Seq<char> {
    match e {
        ArgumentError::MissingAddress => "Missing target address"@,
        ArgumentError::MissingMode => "Missing mode"@,
        ArgumentError::UnknownMode => "Invalid mode. Use 'tcp', 'udp', 'http' or 'https'"@,
        ArgumentError::UnknownFlag => "Unknown flag"@,
        ArgumentError::MissingValue => "Missing value after flag"@,
        ArgumentError::InvalidCount => "Invalid count"@,
    }
}

impl ArgumentError {
    /// The diagnostic shown to the user for this error.
    pub fn message(&self) -> (r: String)
        ensures
            r@ == argument_error_text(*self),
    {
        match self {
            ArgumentError::MissingAddress => String::from_str("Missing target address"),
            ArgumentError::MissingMode => String::from_str("Missing mode"),
            ArgumentError::UnknownMode => String::from_str(
                "Invalid mode. Use 'tcp', 'udp', 'http' or 'https'",
            ),
            ArgumentError::UnknownFlag => String::from_str("Unknown flag"),
            ArgumentError::MissingValue => String::from_str("Missing value after flag"),
            ArgumentError::InvalidCount => String::from_str("Invalid count"),
        }
    }
}

/// What a command line asks for.
#[derive(Debug)]
pub struct Invocation {
    pub address: String,
    pub protocol: ProtocolKind,
    pub message: Option<String>,
    pub file: Option<String>,
    pub count: u32,
    pub save: Option<String>,
}

/// What the flags of a command line come to.
pub struct FlagsView {
    pub message: Option<Seq<char>>,
    pub file: Option<Seq<char>>,
    pub count: nat,
    pub save: Option<Seq<char>>,
}

/// An [`Invocation`] in contracts.
pub struct InvocationView {
    pub address: Seq<char>,
    pub protocol: ProtocolKind,
    pub flags: FlagsView,
}

impl View for Invocation {
    type V = InvocationView;

    open spec fn view(&self) -> InvocationView {
        InvocationView {
            address: self.address@,
            protocol: self.protocol,
            flags: FlagsView {
                message: crate::request::text_view(self.message),
                file: crate::request::text_view(self.file),
                count: self.count as nat,
                save: crate::request::text_view(self.save),
            },
        }
    }
}

/// The view of a parsed command line.
pub open spec fn invocation_view(r: Result<Invocation, ArgumentError>) -> Result<
    InvocationView,
    ArgumentError,
> {
    match r {
        Ok(i) => Ok(i@),
        Err(e) => Err(e),
    }
}

/// The flags before any is read: no message, no file, one repetition, nothing
/// kept.
pub open spec fn no_flags() -> FlagsView {
    FlagsView { message: None, file: None, count: 1, save: None }
}

/// True for the four flags.
pub open spec fn is_flag(word: Seq<char>) -> bool {
    word == "--message"@ || word == "--file"@ || word == "--count"@ || word == "--save"@
}

/// The flags of `args` from position `from` on, read into `so_far` from left
/// to right: each flag takes the word behind it as its value.
pub open spec fn flags_spec(args: Seq<String>, from: int, so_far: FlagsView) -> Result<
    FlagsView,
    ArgumentError,
>
    decreases args.len() - from,
{
    if from < 0 || from >= args.len() {
        Ok(so_far)
    } else if !is_flag(args[from]@) {
        Err(ArgumentError::UnknownFlag)
    } else if from + 1 >= args.len() {
        Err(ArgumentError::MissingValue)
    } else {
        let flag = args[from]@;
        let value = args[from + 1]@;
        if flag == "--message"@ {
            flags_spec(args, from + 2, FlagsView { message: Some(value), ..so_far })
        } else if flag == "--file"@ {
            flags_spec(args, from + 2, FlagsView { file: Some(value), ..so_far })
        } else if flag == "--save"@ {
            flags_spec(args, from + 2, FlagsView { save: Some(value), ..so_far })
        } else {
            match decimal_value(value, MAX_COUNT as nat) {
                Some(n) => flags_spec(args, from + 2, FlagsView { count: n, ..so_far }),
                None => Err(ArgumentError::InvalidCount),
            }
        }
    }
}

/// What a command line comes to. `args` are the words behind the program's
/// name: the target, the mode word, then the flags.
pub open spec fn parse_args_spec(args: Seq<String>) -> Result<InvocationView, ArgumentError> {
    if args.len() < 1 {
        Err(ArgumentError::MissingAddress)
    } else if args.len() < 2 {
        Err(ArgumentError::MissingMode)
    } else {
        match mode_spec(args[1]@) {
            None => Err(ArgumentError::UnknownMode),
            Some(protocol) => match flags_spec(args, 2, no_flags()) {
                Ok(flags) => Ok(InvocationView { address: args[0]@, protocol, flags }),
                Err(e) => Err(e),
            },
        }
    }
}

/// Tells whether two texts are the same.
pub fn same_text(a: &str, b: &str) -> (r: bool)
    ensures
        r == (a@ == b@),
{
    let x = chars_of(a);
    let y = chars_of(b);
    if x.len() != y.len() {
        return false;
    }
    let mut i: usize = 0;
    while i < x.len()
        invariant
            x.len() == y.len(),
            x@ == a@,
            y@ == b@,
            i <= x.len(),
            forall|k: int| 0 <= k < i ==> x@[k] == y@[k],
        decreases x.len() - i,
    {
        if x[i] != y[i] {
            return false;
        }
        i += 1;
    }
    assert(a@ =~= b@);
    true
}

/// Reads a command line.
pub fn parse_args(args: &Vec<String>) -> (r: Result<Invocation, ArgumentError>)
    ensures
        invocation_view(r) == parse_args_spec(args@),
{
    let n = args.len();
    if n < 1 {
        return Err(ArgumentError::MissingAddress);
    }
    if n < 2 {
        return Err(ArgumentError::MissingMode);
    }
    let protocol = match ProtocolKind::from_mode(args[1].as_str()) {
        Some(p) => p,
        None => {
            return Err(ArgumentError::UnknownMode);
        },
    };
    let mut message: Option<String> = None;
    let mut file: Option<String> = None;
    let mut count: u32 = 1;
    let mut save: Option<String> = None;
    let mut i: usize = 2;
    while i < n
        invariant
            n == args.len(),
            2 <= i <= n + 1,
            mode_spec(args@[1]@) == Some(protocol),
            flags_spec(args@, 2, no_flags()) == flags_spec(
                args@,
                i as int,
                FlagsView {
                    message: crate::request::text_view(message),
                    file: crate::request::text_view(file),
                    count: count as nat,
                    save: crate::request::text_view(save),
                },
            ),
        decreases n + 1 - i,
    {
        let flag = args[i].as_str();
        let is_message = same_text(flag, "--message");
        let is_file = same_text(flag, "--file");
        let is_save = same_text(flag, "--save");
        let is_count = same_text(flag, "--count");
        if !(is_message || is_file || is_save || is_count) {
            return Err(ArgumentError::UnknownFlag);
        }
        if i + 1 >= n {
            return Err(ArgumentError::MissingValue);
        }
        let value = args[i + 1].as_str();
        if is_message {
            message = Some(String::from_str(value));
        } else if is_file {
            file = Some(String::from_str(value));
        } else if is_save {
            save = Some(String::from_str(value));
        } else {
            let digits = chars_of(value);
            match parse_decimal(digits.as_slice(), MAX_COUNT) {
                Some(c) => {
                    count = c;
                },
                None => {
                    return Err(ArgumentError::InvalidCount);
                },
            }
        }
        i += 2;
    }
    Ok(Invocation { address: args[0].clone(), protocol, message, file, count, save })
}

/// The request of a command line: its message goes in as the bytes of its
/// text.
pub open spec fn request_spec(v: InvocationView, message: Option<Seq<u8>>) -> Result<
    RequestView,
    RequestError,
> {
    match rejection(v.protocol, v.flags.file) {
        Some(e) => Err(e),
        None => Ok(
            RequestView {
                address: v.address,
                protocol: v.protocol,
                message,
                file_path: v.flags.file,
                save_path: v.flags.save,
            },
        ),
    }
}

/// The UTF-8 bytes of an optional text.
pub open spec fn text_bytes(t: Option<String>) -> Option<Seq<u8>> {
    match t {
        Some(s) => Some(encode_utf8(s@)),
        None => None,
    }
}

/// The view of a built request.
pub open spec fn request_view(r: Result<RequestSpec, RequestError>) -> Result<
    RequestView,
    RequestError,
> {
    match r {
        Ok(s) => Ok(s@),
        Err(e) => Err(e),
    }
}

impl Invocation {
    /// Builds the request that this command line describes, or says why the
    /// combination is refused: a datagram cannot carry a file.
    pub fn into_request(self) -> (r: Result<RequestSpec, RequestError>)
        ensures
            request_view(r) == request_spec(self@, text_bytes(self.message)),
    {
        let Invocation { address, protocol, message, file, count: _, save } = self;
        let payload = match message {
            Some(m) => Some(m.as_str().as_bytes_vec()),
            None => None,
        };
        RequestSpec::new(address, protocol, payload, file, save)
    }
}

} // verus!
