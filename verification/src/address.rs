//! Address resolution: turning what the user typed, a URL or an `IP:PORT`
//! pair, into an endpoint. The work is purely syntactic; nothing is looked up.
//!
//! A URL reading is tried first and wins whenever it succeeds. Only when the
//! text is no URL is it read as a dotted-quad IPv4 address, a colon and a port.

use crate::text::{
    chars_of, decimal_value, find_from, is_digit, parse_decimal, unsigned_digits,
};
use vstd::prelude::*;
use vstd::slice::slice_subrange;
use vstd::string::{StrSliceExecFns, StringExecFns};

verus! {

/// Port used when a URL names none.
pub const DEFAULT_PORT: u16 = 80;

/// Largest value of one part of a dotted-quad address.
pub const MAX_OCTET: u32 = 255;

/// Largest port number.
pub const MAX_PORT: u32 = 65535;

/// A resolved target: where a transport connects to.
#[derive(Debug)]
pub struct Endpoint {
    pub host: String,
    pub port: u16,
}

/// What an [`Endpoint`] stands for in contracts.
pub struct EndpointView {
    pub host: Seq<char>,
    pub port: u16,
}

impl View for Endpoint {
    type V = EndpointView;

    open spec fn view(&self) -> EndpointView {
        EndpointView { host: self.host@, port: self.port }
    }
}

impl Endpoint {
    /// A copy of this endpoint.
    pub fn duplicate(&self) -> (r: Endpoint)
        ensures
            r@ == self@,
    {
        Endpoint { host: self.host.clone(), port: self.port }
    }
}

/// Why an address was refused.
#[derive(Clone, Copy, Debug, PartialEq, Eq, Structural)]
pub enum AddressParseError {
    /// The text is a URL, but one without a host.
    MissingHost,
    /// The text is no URL and holds no colon to part host from port.
    InvalidFormat,
    /// The part before the colon is not four numbers of 0 to 255 joined by dots.
    InvalidOctet,
    /// The part after the colon is not a number of 0 to 65535.
    InvalidPort,
    /// No reading applied at all. Resolution never reports this: every text
    /// without a colon is already an `InvalidFormat`.
    Unrecognized,
}

/// The diagnostic that goes with an address error.
pub open spec fn error_text(e: AddressParseError) -> Seq<char> {
    match e {
        AddressParseError::MissingHost => "Missing host in URL"@,
        AddressParseError::InvalidFormat => "Invalid address format"@,
        AddressParseError::InvalidOctet => "Invalid IP address octet"@,
        AddressParseError::InvalidPort => "Invalid port number"@,
        AddressParseError::Unrecognized => "Unrecognized address"@,
    }
}

impl AddressParseError {
    /// The diagnostic shown to the user for this error.
    pub fn message(&self) -> (r: String)
        ensures
            r@ == error_text(*self),
    {
        match self {
            AddressParseError::MissingHost => String::from_str("Missing host in URL"),
            AddressParseError::InvalidFormat => String::from_str("Invalid address format"),
            AddressParseError::InvalidOctet => String::from_str("Invalid IP address octet"),
            AddressParseError::InvalidPort => String::from_str("Invalid port number"),
            AddressParseError::Unrecognized => String::from_str("Unrecognized address"),
        }
    }
}

/// The host and the explicit port of a parsed URL, as plain values.
#[derive(Debug)]
pub struct ParsedUrl {
    /// The host as the URL record spells it, if the URL has one.
    pub host: Option<String>,
    /// The port, if the URL names one that is not its scheme's default.
    pub port: Option<u16>,
}

/// A [`ParsedUrl`] in contracts: host text and port.
pub type UrlParts = (Option<Seq<char>>, Option<u16>);

impl View for ParsedUrl {
    type V = UrlParts;

    open spec fn view(&self) -> UrlParts {
        (
            match self.host {
                Some(h) => Some(h@),
                None => None,
            },
            self.port,
        )
    }
}

/// The view of an optional parsed URL.
pub open spec fn parsed_view(p: Option<ParsedUrl>) -> Option<UrlParts> {
    match p {
        Some(u) => Some(u@),
        None => None,
    }
}

/// The view of a resolution result.
pub open spec fn resolution_view(r: Result<Endpoint, AddressParseError>) -> Result<
    EndpointView,
    AddressParseError,
> {
    match r {
        Ok(e) => Ok(e@),
        Err(e) => Err(e),
    }
}

/// The three characters that part a scheme from the rest of a URL.
pub open spec fn scheme_mark() -> Seq<char> {
    seq![':', '/', '/']
}

/// The scheme put in front of a text that brings none.
pub open spec fn implicit_scheme() -> Seq<char> {
    seq!['h', 't', 't', 'p', ':', '/', '/']
}

/// True when `s` holds `://` at position `i`.
pub open spec fn scheme_mark_at(s: Seq<char>, i: int) -> bool {
    0 <= i && i + 3 <= s.len() && s[i] == ':' && s[i + 1] == '/' && s[i + 2] == '/'
}

/// A text brings its own scheme when `://` occurs in it.
pub open spec fn has_scheme(s: Seq<char>) -> bool {
    exists|i: int| scheme_mark_at(s, i)
}

/// The text handed to the URL parser: the address itself when it brings a
/// scheme, else the address behind `http://`.
pub open spec fn url_text(s: Seq<char>) -> Seq<char> {
    if has_scheme(s) {
        s
    } else {
        implicit_scheme() + s
    }
}

/// The prefix that is dropped from a URL's host.
pub open spec fn www_prefix() -> Seq<char> {
    seq!['w', 'w', 'w', '.']
}

/// `h` without a leading `www.`; any other host is left as it is.
pub open spec fn strip_www(h: Seq<char>) -> Seq<char> {
    if h.len() >= 4 && h.subrange(0, 4) == www_prefix() {
        h.subrange(4, h.len() as int)
    } else {
        h
    }
}

/// True when `s` is a number of 0 to 255 in decimal.
pub open spec fn is_octet(s: Seq<char>) -> bool {
    decimal_value(s, MAX_OCTET as nat) is Some
}

/// True when dots at `a`, `b` and `c` cut `h` into four octets.
pub open spec fn quad_at(h: Seq<char>, a: int, b: int, c: int) -> bool {
    &&& 0 <= a < b < c < h.len()
    &&& h[a] == '.' && h[b] == '.' && h[c] == '.'
    &&& is_octet(h.subrange(0, a))
    &&& is_octet(h.subrange(a + 1, b))
    &&& is_octet(h.subrange(b + 1, c))
    &&& is_octet(h.subrange(c + 1, h.len() as int))
}

/// True when `h` is a dotted-quad IPv4 address: exactly four octets joined by
/// dots.
pub open spec fn is_dotted_quad(h: Seq<char>) -> bool {
    exists|a: int, b: int, c: int| quad_at(h, a, b, c)
}

/// True when `i` is the position of the first `c` in `s`.
pub open spec fn is_first_index(s: Seq<char>, c: char, i: int) -> bool {
    &&& 0 <= i < s.len()
    &&& s[i] == c
    &&& forall|j: int| 0 <= j < i ==> s[j] != c
}

/// The position of the first `c` in `s`, for an `s` that holds one.
pub open spec fn first_index(s: Seq<char>, c: char) -> int {
    choose|i: int| is_first_index(s, c, i)
}

/// The reading of `s` as `IP:PORT`: the text is cut at its first colon, the
/// part before it must be a dotted quad and the part after it a port number.
pub open spec fn host_port_spec(s: Seq<char>) -> Result<EndpointView, AddressParseError> {
    if !s.contains(':') {
        Err(AddressParseError::InvalidFormat)
    } else {
        let i = first_index(s, ':');
        let host = s.subrange(0, i);
        let port_text = s.subrange(i + 1, s.len() as int);
        if !is_dotted_quad(host) {
            Err(AddressParseError::InvalidOctet)
        } else {
            match decimal_value(port_text, MAX_PORT as nat) {
                Some(p) => Ok(EndpointView { host, port: p as u16 }),
                None => Err(AddressParseError::InvalidPort),
            }
        }
    }
}

/// The endpoint that a parsed URL gives: its host without a leading `www.`,
/// and its port or, where it names none, port 80.
pub open spec fn url_endpoint_spec(parts: UrlParts) -> Result<EndpointView, AddressParseError> {
    match parts.0 {
        Some(h) => Ok(
            EndpointView {
                host: strip_www(h),
                port: match parts.1 {
                    Some(p) => p,
                    None => DEFAULT_PORT,
                },
            },
        ),
        None => Err(AddressParseError::MissingHost),
    }
}

/// Resolution of `address`, given what the URL parser made of its URL text:
/// a URL reading wins; without one the text is read as `IP:PORT`.
pub open spec fn resolve_spec(address: Seq<char>, parsed: Option<UrlParts>) -> Result<
    EndpointView,
    AddressParseError,
> {
    match parsed {
        Some(parts) => url_endpoint_spec(parts),
        None => host_port_spec(address),
    }
}

/// A text that holds `c` has a first position at which it does.
pub proof fn lemma_first_index(s: Seq<char>, c: char)
    requires
        s.contains(c),
    ensures
        is_first_index(s, c, first_index(s, c)),
{
    let k = choose|k: int| 0 <= k < s.len() && s[k] == c;
    lemma_first_index_up_to(s, c, k);
}

/// Some position up to `k` is the first to hold `c`, where position `k` holds it.
proof fn lemma_first_index_up_to(s: Seq<char>, c: char, k: int)
    requires
        0 <= k < s.len(),
        s[k] == c,
    ensures
        exists|i: int| is_first_index(s, c, i),
    decreases k,
{
    if exists|j: int| 0 <= j < k && s[j] == c {
        let j = choose|j: int| 0 <= j < k && s[j] == c;
        lemma_first_index_up_to(s, c, j);
    } else {
        assert(is_first_index(s, c, k));
    }
}

/// A URL reading wins: where the URL parser accepted the text, the result is
/// read off the URL alone, whatever the text would come to as `IP:PORT`, and
/// it is an endpoint exactly when the URL has a host.
pub proof fn lemma_url_reading_wins(a: Seq<char>, b: Seq<char>, parts: UrlParts)
    ensures
        resolve_spec(a, Some(parts)) == resolve_spec(b, Some(parts)),
        resolve_spec(a, Some(parts)) is Ok <==> parts.0 is Some,
        resolve_spec(a, Some(parts)) is Err ==> resolve_spec(a, Some(parts)) == Err::<
            EndpointView,
            AddressParseError,
        >(AddressParseError::MissingHost),
{
}

/// Resolution has four refusals and no fifth: whatever the text and whatever
/// the URL parser made of it, the result is never `Unrecognized`.
pub proof fn lemma_never_unrecognized(address: Seq<char>, parsed: Option<UrlParts>)
    ensures
        resolve_spec(address, parsed) != Err::<EndpointView, AddressParseError>(
            AddressParseError::Unrecognized,
        ),
{
}

/// An endpoint read from `IP:PORT` is the text cut at its first colon: the
/// host is the dotted quad in front of it, written as it was typed, and the
/// port is the number behind it.
pub proof fn lemma_host_port_reading_splits_the_text(s: Seq<char>)
    requires
        host_port_spec(s) is Ok,
    ensures
        ({
            let e = host_port_spec(s)->Ok_0;
            let i = e.host.len() as int;
            &&& is_dotted_quad(e.host)
            &&& i < s.len()
            &&& s[i] == ':'
            &&& s.subrange(0, i) == e.host
            &&& decimal_value(s.subrange(i + 1, s.len() as int), MAX_PORT as nat) == Some(
                e.port as nat,
            )
        }),
{
    lemma_first_index(s, ':');
}

/// What the `url` crate makes of a URL text: `None` where it refuses the
/// text, else the host and the port of the record it builds.
pub uninterp spec fn url_record(text: Seq<char>) -> Option<UrlParts>;

/// Parses `text` with `url::Url::parse` and reads the record's host and port
/// with `Url::host_str` and `Url::port`.
///
/// Trusted, not proved: the result is the parser's answer for `text`, which
/// depends on `text` alone. Nothing is claimed about which texts the parser
/// accepts or which host and port it finds.
#[verifier::external_body]
fn parse_url(text: &str) -> (r: Option<ParsedUrl>)
    ensures
        parsed_view(r) == url_record(text@),
{
    match url::Url::parse(text) {
        Ok(record) => {
            let host = match record.host_str() {
                Some(h) => Some(h.to_string()),
                None => None,
            };
            Some(ParsedUrl { host, port: record.port() })
        },
        Err(_) => None,
    }
}

/// An octet is a plus sign or digits throughout, so it holds no dot.
proof fn lemma_octet_has_no_dot(s: Seq<char>)
    requires
        is_octet(s),
    ensures
        forall|i: int| 0 <= i < s.len() ==> s[i] != '.',
{
    let d = unsigned_digits(s);
    assert forall|i: int| 0 <= i < s.len() implies s[i] != '.' by {
        if s[0] == '+' {
            if i > 0 {
                assert(is_digit(d[i - 1]));
            }
        } else {
            assert(is_digit(d[i]));
        }
    }
}

/// The dots of a dotted quad are the first three dots of the text.
proof fn lemma_quad_dots_are_first(h: Seq<char>, a: int, b: int, c: int)
    requires
        quad_at(h, a, b, c),
    ensures
        forall|j: int| 0 <= j < a ==> h[j] != '.',
        forall|j: int| a < j < b ==> h[j] != '.',
        forall|j: int| b < j < c ==> h[j] != '.',
        forall|j: int| c < j < h.len() ==> h[j] != '.',
{
    let first = h.subrange(0, a);
    let second = h.subrange(a + 1, b);
    let third = h.subrange(b + 1, c);
    let fourth = h.subrange(c + 1, h.len() as int);
    lemma_octet_has_no_dot(first);
    lemma_octet_has_no_dot(second);
    lemma_octet_has_no_dot(third);
    lemma_octet_has_no_dot(fourth);
    assert forall|j: int| 0 <= j < a implies h[j] != '.' by {
        assert(first[j] == h[j]);
    }
    assert forall|j: int| a < j < b implies h[j] != '.' by {
        assert(second[j - a - 1] == h[j]);
    }
    assert forall|j: int| b < j < c implies h[j] != '.' by {
        assert(third[j - b - 1] == h[j]);
    }
    assert forall|j: int| c < j < h.len() implies h[j] != '.' by {
        assert(fourth[j - c - 1] == h[j]);
    }
}

/// Tells whether `text[from..to]` is an octet.
fn octet_between(text: &[char], from: usize, to: usize) -> (b: bool)
    requires
        from <= to <= text.len(),
    ensures
        b == is_octet(text@.subrange(from as int, to as int)),
{
    parse_decimal(slice_subrange(text, from, to), MAX_OCTET).is_some()
}

/// Tells whether `host` is a dotted-quad IPv4 address.
pub fn dotted_quad(host: &[char]) -> (b: bool)
    ensures
        b == is_dotted_quad(host@),
{
    let n = host.len();
    let a = find_from(host, 0, '.');
    let b = if a < n { find_from(host, a + 1, '.') } else { n };
    let c = if b < n { find_from(host, b + 1, '.') } else { n };
    let found = c < n && octet_between(host, 0, a) && octet_between(host, a + 1, b)
        && octet_between(host, b + 1, c) && octet_between(host, c + 1, n);
    proof {
        if found {
            assert(quad_at(host@, a as int, b as int, c as int));
        } else {
            assert forall|x: int, y: int, z: int| !quad_at(host@, x, y, z) by {
                if quad_at(host@, x, y, z) {
                    lemma_quad_dots_are_first(host@, x, y, z);
                    assert(x == a);
                    assert(y == b);
                    assert(z == c);
                }
            }
        }
    }
    found
}

/// Tells whether `://` occurs in `text`.
pub fn brings_scheme(text: &[char]) -> (b: bool)
    ensures
        b == has_scheme(text@),
{
    let n = text.len();
    if n < 3 {
        return false;
    }
    let mut i: usize = 0;
    while i < n - 2
        invariant
            n == text@.len(),
            n >= 3,
            i <= n - 2,
            forall|j: int| 0 <= j < i ==> !scheme_mark_at(text@, j),
        decreases n - i,
    {
        if text[i] == ':' && text[i + 1] == '/' && text[i + 2] == '/' {
            assert(scheme_mark_at(text@, i as int));
            return true;
        }
        i += 1;
    }
    false
}

/// Reads `address` as `IP:PORT`, without trying a URL reading first.
pub fn parse_host_port(address: &str) -> (r: Result<Endpoint, AddressParseError>)
    ensures
        resolution_view(r) == host_port_spec(address@),
        r matches Ok(e) ==> is_dotted_quad(e@.host),
{
    let owned = chars_of(address);
    let chars = owned.as_slice();
    let n = chars.len();
    let i = find_from(chars, 0, ':');
    if i == n {
        assert(!address@.contains(':'));
        return Err(AddressParseError::InvalidFormat);
    }
    assert(is_first_index(address@, ':', i as int));
    assert(address@.contains(':'));
    assert(first_index(address@, ':') == i);
    if !dotted_quad(slice_subrange(chars, 0, i)) {
        return Err(AddressParseError::InvalidOctet);
    }
    match parse_decimal(slice_subrange(chars, i + 1, n), MAX_PORT) {
        Some(port) => Ok(
            Endpoint { host: String::from_str(address.substring_char(0, i)), port: port as u16 },
        ),
        None => Err(AddressParseError::InvalidPort),
    }
}

/// The host of a URL with a leading `www.` taken off.
pub fn without_www(host: &str) -> (r: String)
    ensures
        r@ == strip_www(host@),
{
    let owned = chars_of(host);
    let n = owned.len();
    if n >= 4 && owned[0] == 'w' && owned[1] == 'w' && owned[2] == 'w' && owned[3] == '.' {
        assert(host@.subrange(0, 4) == www_prefix());
        String::from_str(host.substring_char(4, n))
    } else {
        assert(host@.len() >= 4 ==> host@.subrange(0, 4)[0] == host@[0]
            && host@.subrange(0, 4)[1] == host@[1]
            && host@.subrange(0, 4)[2] == host@[2]
            && host@.subrange(0, 4)[3] == host@[3]);
        String::from_str(host)
    }
}

/// Resolves `address` once its URL text has been through the URL parser:
/// `parsed` is the parser's answer, `None` where it refused the text.
///
/// A URL that parsed decides the result alone: its host without a leading
/// `www.` and its port, or 80. Otherwise `address` is read as `IP:PORT`.
pub fn resolve_with(address: &str, parsed: Option<ParsedUrl>) -> (r: Result<
    Endpoint,
    AddressParseError,
>)
    ensures
        resolution_view(r) == resolve_spec(address@, parsed_view(parsed)),
        r != Err::<Endpoint, AddressParseError>(AddressParseError::Unrecognized),
{
    match parsed {
        Some(url) => match url.host {
            Some(host) => {
                let port = match url.port {
                    Some(p) => p,
                    None => DEFAULT_PORT,
                };
                Ok(Endpoint { host: without_www(host.as_str()), port })
            },
            None => Err(AddressParseError::MissingHost),
        },
        None => parse_host_port(address),
    }
}

/// Resolves a target given as a URL or as `IP:PORT`.
///
/// The text goes to the URL parser, behind `http://` unless it brings a
/// scheme of its own; what comes back is resolved as [`resolve_with`] says.
pub fn parse_address(address_str: &str) -> (r: Result<Endpoint, AddressParseError>)
    ensures
        resolution_view(r) == resolve_spec(address_str@, url_record(url_text(address_str@))),
        r != Err::<Endpoint, AddressParseError>(AddressParseError::Unrecognized),
{
    let owned = chars_of(address_str);
    let parsed = if brings_scheme(owned.as_slice()) {
        parse_url(address_str)
    } else {
        let mut text = String::from_str("http://");
        proof {
            reveal_strlit("http://");
            assert("http://"@ =~= implicit_scheme());
        }
        text.append(address_str);
        parse_url(text.as_str())
    };
    resolve_with(address_str, parsed)
}

} // verus!
