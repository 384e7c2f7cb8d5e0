//! What one probe asks for: the protocol, the target as the user typed it,
//! the payload and where the response is to be kept.

use crate::text::chars_of;
use vstd::prelude::*;
use vstd::string::StringExecFns;

verus! {

/// The transports a request can choose from.
#[derive(Clone, Copy, Debug, PartialEq, Eq, Structural)]
pub enum ProtocolKind {
    /// A byte stream: the payload is written, then the peer is read to its end.
    Tcp,
    /// One datagram, with no reply awaited.
    Udp,
    /// A GET over plain HTTP.
    Http,
    /// A GET over HTTPS.
    Https,
    /// A byte stream whose payload is the content of a file.
    File,
}

/// The protocol that a mode word of the command line selects. The match is
/// exact and case-sensitive; file transfer has no mode word of its own.
pub open spec fn mode_spec(mode: Seq<char>) -> Option<ProtocolKind> {
    if mode == seq!['t', 'c', 'p'] {
        Some(ProtocolKind::Tcp)
    } else if mode == seq!['u', 'd', 'p'] {
        Some(ProtocolKind::Udp)
    } else if mode == seq!['h', 't', 't', 'p'] {
        Some(ProtocolKind::Http)
    } else if mode == seq!['h', 't', 't', 'p', 's'] {
        Some(ProtocolKind::Https)
    } else {
        None
    }
}

impl ProtocolKind {
    /// Reads a mode word: `tcp`, `udp`, `http` or `https`, and nothing else.
    pub fn from_mode(mode: &str) -> (r: Option<ProtocolKind>)
        ensures
            r == mode_spec(mode@),
    {
        let c = chars_of(mode);
        let n = c.len();
        if n == 3 && c[0] == 't' && c[1] == 'c' && c[2] == 'p' {
            assert(mode@ =~= seq!['t', 'c', 'p']);
            Some(ProtocolKind::Tcp)
        } else if n == 3 && c[0] == 'u' && c[1] == 'd' && c[2] == 'p' {
            assert(mode@ =~= seq!['u', 'd', 'p']);
            Some(ProtocolKind::Udp)
        } else if n == 4 && c[0] == 'h' && c[1] == 't' && c[2] == 't' && c[3] == 'p' {
            assert(mode@ =~= seq!['h', 't', 't', 'p']);
            Some(ProtocolKind::Http)
        } else if n == 5 && c[0] == 'h' && c[1] == 't' && c[2] == 't' && c[3] == 'p' && c[4]
            == 's' {
            assert(mode@ =~= seq!['h', 't', 't', 'p', 's']);
            Some(ProtocolKind::Https)
        } else {
            assert(mode@ != seq!['t', 'c', 'p']) by {
                let lit = seq!['t', 'c', 'p'];
                assert(lit.len() == 3 && lit[0] == 't' && lit[1] == 'c' && lit[2] == 'p');
            }
            assert(mode@ != seq!['u', 'd', 'p']) by {
                let lit = seq!['u', 'd', 'p'];
                assert(lit.len() == 3 && lit[0] == 'u' && lit[1] == 'd' && lit[2] == 'p');
            }
            assert(mode@ != seq!['h', 't', 't', 'p']) by {
                let lit = seq!['h', 't', 't', 'p'];
                assert(lit.len() == 4 && lit[0] == 'h' && lit[1] == 't' && lit[2] == 't' && lit[3]
                    == 'p');
            }
            assert(mode@ != seq!['h', 't', 't', 'p', 's']) by {
                let lit = seq!['h', 't', 't', 'p', 's'];
                assert(lit.len() == 5 && lit[0] == 'h' && lit[1] == 't' && lit[2] == 't' && lit[3]
                    == 'p' && lit[4] == 's');
            }
            None
        }
    }
}

/// Why a request was refused before any job was started.
#[derive(Clone, Copy, Debug, PartialEq, Eq, Structural)]
pub enum RequestError {
    /// A datagram cannot carry a file.
    UdpFileUnsupported,
    /// File transfer was chosen without a file to send.
    MissingFilePath,
}

impl RequestError {
    /// The diagnostic shown to the user for this error.
    pub fn message(&self) -> (r: String)
        ensures
            r@ == match *self {
                RequestError::UdpFileUnsupported => "UDP mode does not support file transmission."@,
                RequestError::MissingFilePath => "File transfer needs a file path."@,
            },
    {
        match self {
            RequestError::UdpFileUnsupported => String::from_str(
                "UDP mode does not support file transmission.",
            ),
            RequestError::MissingFilePath => String::from_str("File transfer needs a file path."),
        }
    }
}

/// The view of an optional text.
pub open spec fn text_view(t: Option<String>) -> Option<Seq<char>> {
    match t {
        Some(s) => Some(s@),
        None => None,
    }
}

/// The view of an optional run of bytes.
pub open spec fn bytes_view(b: Option<Vec<u8>>) -> Option<Seq<u8>> {
    match b {
        Some(v) => Some(v@),
        None => None,
    }
}

/// A copy of an optional text.
pub fn copy_text(t: &Option<String>) -> (r: Option<String>)
    ensures
        text_view(r) == text_view(*t),
{
    match t {
        Some(s) => Some(s.clone()),
        None => None,
    }
}

/// A copy of an optional run of bytes.
pub fn copy_bytes(b: &Option<Vec<u8>>) -> (r: Option<Vec<u8>>)
    ensures
        bytes_view(r) == bytes_view(*b),
{
    match b {
        Some(v) => Some(v.clone()),
        None => None,
    }
}

/// A [`RequestSpec`] in contracts.
pub struct RequestView {
    pub address: Seq<char>,
    pub protocol: ProtocolKind,
    pub message: Option<Seq<u8>>,
    pub file_path: Option<Seq<char>>,
    pub save_path: Option<Seq<char>>,
}

/// The reason for which a combination of protocol and file path is refused,
/// if it is: a datagram with a file, or a file transfer without one.
pub open spec fn rejection(protocol: ProtocolKind, file_path: Option<Seq<char>>) -> Option<
    RequestError,
> {
    if protocol == ProtocolKind::Udp && file_path is Some {
        Some(RequestError::UdpFileUnsupported)
    } else if protocol == ProtocolKind::File && file_path is None {
        Some(RequestError::MissingFilePath)
    } else {
        None
    }
}

/// What holds of every request: its combination of protocol and file path is
/// one that is not refused.
pub open spec fn well_formed(v: RequestView) -> bool {
    rejection(v.protocol, v.file_path) is None
}

/// The description of one probe. It is fixed once built; each job works on a
/// copy of its own.
#[derive(Debug)]
pub struct RequestSpec {
    address: String,
    protocol: ProtocolKind,
    message: Option<Vec<u8>>,
    file_path: Option<String>,
    save_path: Option<String>,
}

impl View for RequestSpec {
    type V = RequestView;

    closed spec fn view(&self) -> RequestView {
        RequestView {
            address: self.address@,
            protocol: self.protocol,
            message: bytes_view(self.message),
            file_path: text_view(self.file_path),
            save_path: text_view(self.save_path),
        }
    }
}

impl RequestSpec {
    #[verifier::type_invariant]
    spec fn valid(&self) -> bool {
        well_formed(self@)
    }

    /// Builds a request, or says why the combination is refused.
    pub fn new(
        address: String,
        protocol: ProtocolKind,
        message: Option<Vec<u8>>,
        file_path: Option<String>,
        save_path: Option<String>,
    ) -> (r: Result<RequestSpec, RequestError>)
        ensures
            match r {
                Ok(spec) => rejection(protocol, text_view(file_path)) is None && spec@ == (
                RequestView {
                    address: address@,
                    protocol,
                    message: bytes_view(message),
                    file_path: text_view(file_path),
                    save_path: text_view(save_path),
                }),
                Err(e) => rejection(protocol, text_view(file_path)) == Some(e),
            },
    {
        if protocol == ProtocolKind::Udp && file_path.is_some() {
            Err(RequestError::UdpFileUnsupported)
        } else if protocol == ProtocolKind::File && file_path.is_none() {
            Err(RequestError::MissingFilePath)
        } else {
            Ok(RequestSpec { address, protocol, message, file_path, save_path })
        }
    }

    /// An independent copy of this request.
    pub fn duplicate(&self) -> (r: RequestSpec)
        ensures
            r@ == self@,
            well_formed(r@),
    {
        proof {
            use_type_invariant(self);
        }
        RequestSpec {
            address: self.address.clone(),
            protocol: self.protocol,
            message: copy_bytes(&self.message),
            file_path: copy_text(&self.file_path),
            save_path: copy_text(&self.save_path),
        }
    }

    /// The target as the user typed it.
    pub fn address(&self) -> (r: &str)
        ensures
            r@ == self@.address,
    {
        self.address.as_str()
    }

    /// The chosen protocol. The call also recalls that the request is well
    /// formed, as every request is.
    pub fn protocol(&self) -> (r: ProtocolKind)
        ensures
            r == self@.protocol,
            well_formed(self@),
    {
        proof {
            use_type_invariant(self);
        }
        self.protocol
    }

    /// The message to send, if one was given.
    pub fn message(&self) -> (r: &Option<Vec<u8>>)
        ensures
            bytes_view(*r) == self@.message,
    {
        &self.message
    }

    /// The file whose content is to be sent, if one was given.
    pub fn file_path(&self) -> (r: &Option<String>)
        ensures
            text_view(*r) == self@.file_path,
    {
        &self.file_path
    }

    /// Where the raw response is to be kept, if anywhere.
    pub fn save_path(&self) -> (r: &Option<String>)
        ensures
            text_view(*r) == self@.save_path,
    {
        &self.save_path
    }
}

} // verus!
