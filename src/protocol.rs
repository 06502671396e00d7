//! The protocol registry: which protocol a URL scheme names, its default
//! port, and the request line it sends.
use vstd::prelude::*;
use vstd::utf8::encode_utf8;
use crate::location::{Address, AddressView};
use crate::text::{append, chars_of, decimal, eq_chars, lower, push_decimal, string_of, to_ascii_lower};

verus! {

/// The protocols this client knows how to speak.
#[derive(Clone, Copy, Debug, PartialEq, Eq, Structural)]
pub enum Protocol {
    Finger,
    /// Gopher; `true` for the TLS-wrapped variant.
    Gopher(bool),
    Gemini,
    Guppy,
    Nex,
    /// Not a scheme: marks a navigation whose body is shown as literal text.
    Plaintext,
    Scorpion,
    Scroll,
    Spartan,
    TextProtocol,
    Unknown,
}

/// The protocol that a URL scheme names (exact, case-sensitive match).
pub open spec fn protocol_of_scheme(s: Seq<char>) -> Protocol {
    if s == seq!['f', 'i', 'n', 'g', 'e', 'r'] {
        Protocol::Finger
    } else if s == seq!['g', 'e', 'm', 'i', 'n', 'i'] {
        Protocol::Gemini
    } else if s == seq!['g', 'o', 'p', 'h', 'e', 'r'] {
        Protocol::Gopher(false)
    } else if s == seq!['g', 'o', 'p', 'h', 'e', 'r', 's'] {
        Protocol::Gopher(true)
    } else if s == seq!['g', 'u', 'p', 'p', 'y'] {
        Protocol::Guppy
    } else if s == seq!['n', 'e', 'x'] {
        Protocol::Nex
    } else if s == seq!['s', 'c', 'o', 'r', 'p', 'i', 'o', 'n'] {
        Protocol::Scorpion
    } else if s == seq!['s', 'c', 'r', 'o', 'l', 'l'] {
        Protocol::Scroll
    } else if s == seq!['s', 'p', 'a', 'r', 't', 'a', 'n'] {
        Protocol::Spartan
    } else if s == seq!['t', 'e', 'x', 't'] {
        Protocol::TextProtocol
    } else {
        Protocol::Unknown
    }
}

/// The part of `s` before its first `:` (all of `s` when it has none).
pub open spec fn scheme_part(s: Seq<char>) -> Seq<char>
    decreases s.len(),
{
    if s.len() == 0 || s[0] == ':' {
        seq![]
    } else {
        seq![s[0]] + scheme_part(s.drop_first())
    }
}

/// The port a protocol uses when the URL names none.
pub open spec fn default_port_of(p: Protocol) -> u16 {
    match p {
        Protocol::Finger => 79,
        Protocol::Gemini => 1965,
        Protocol::Gopher(_) => 70,
        Protocol::Guppy => 6775,
        Protocol::Nex => 1900,
        Protocol::Scorpion => 1517,
        Protocol::Scroll => 5699,
        Protocol::Spartan => 300,
        Protocol::TextProtocol => 1961,
        _ => 0,
    }
}

/// The scheme of a URL, classified; schemes are case-insensitive.
pub fn get_protocol(scheme: &str) -> (r: Protocol)
    ensures
        r == protocol_of_scheme(lower(scheme@)),
{
    let s = chars_of(scheme);
    let l = to_ascii_lower(&s);
    classify(&l)
}

fn classify(s: &[char]) -> (r: Protocol)
    ensures
        r == protocol_of_scheme(s@),
{
    let finger = ['f', 'i', 'n', 'g', 'e', 'r'];
    let gemini = ['g', 'e', 'm', 'i', 'n', 'i'];
    let gopher = ['g', 'o', 'p', 'h', 'e', 'r'];
    let gophers = ['g', 'o', 'p', 'h', 'e', 'r', 's'];
    let guppy = ['g', 'u', 'p', 'p', 'y'];
    let nex = ['n', 'e', 'x'];
    let scorpion = ['s', 'c', 'o', 'r', 'p', 'i', 'o', 'n'];
    let scroll = ['s', 'c', 'r', 'o', 'l', 'l'];
    let spartan = ['s', 'p', 'a', 'r', 't', 'a', 'n'];
    let text = ['t', 'e', 'x', 't'];
    assert(finger@ =~= seq!['f', 'i', 'n', 'g', 'e', 'r']);
    assert(gemini@ =~= seq!['g', 'e', 'm', 'i', 'n', 'i']);
    assert(gopher@ =~= seq!['g', 'o', 'p', 'h', 'e', 'r']);
    assert(gophers@ =~= seq!['g', 'o', 'p', 'h', 'e', 'r', 's']);
    assert(guppy@ =~= seq!['g', 'u', 'p', 'p', 'y']);
    assert(nex@ =~= seq!['n', 'e', 'x']);
    assert(scorpion@ =~= seq!['s', 'c', 'o', 'r', 'p', 'i', 'o', 'n']);
    assert(scroll@ =~= seq!['s', 'c', 'r', 'o', 'l', 'l']);
    assert(spartan@ =~= seq!['s', 'p', 'a', 'r', 't', 'a', 'n']);
    assert(text@ =~= seq!['t', 'e', 'x', 't']);
    if eq_chars(s, &finger) {
        Protocol::Finger
    } else if eq_chars(s, &gemini) {
        Protocol::Gemini
    } else if eq_chars(s, &gopher) {
        Protocol::Gopher(false)
    } else if eq_chars(s, &gophers) {
        Protocol::Gopher(true)
    } else if eq_chars(s, &guppy) {
        Protocol::Guppy
    } else if eq_chars(s, &nex) {
        Protocol::Nex
    } else if eq_chars(s, &scorpion) {
        Protocol::Scorpion
    } else if eq_chars(s, &scroll) {
        Protocol::Scroll
    } else if eq_chars(s, &spartan) {
        Protocol::Spartan
    } else if eq_chars(s, &text) {
        Protocol::TextProtocol
    } else {
        Protocol::Unknown
    }
}

proof fn lemma_scheme_part(s: Seq<char>, i: int)
    requires
        0 <= i <= s.len(),
        forall|j: int| 0 <= j < i ==> s[j] != ':',
        i == s.len() || s[i] == ':',
    ensures
        scheme_part(s) == s.subrange(0, i),
    decreases i,
{
    if i > 0 {
        lemma_scheme_part(s.drop_first(), i - 1);
        assert(s.subrange(0, i) =~= seq![s[0]] + s.drop_first().subrange(0, i - 1));
    } else {
        assert(s.subrange(0, 0) =~= Seq::<char>::empty());
    }
}

impl Protocol {
    /// The protocol named by the scheme at the start of `s` (the text before
    /// its first `:`), in any case.
    pub fn from_str(s: &str) -> (r: Protocol)
        ensures
            r == protocol_of_scheme(lower(scheme_part(s@))),
    {
        let v = chars_of(s);
        let mut i: usize = 0;
        while i < v.len() && v[i] != ':'
            invariant
                0 <= i <= v@.len(),
                forall|j: int| 0 <= j < i ==> v@[j] != ':',
            decreases v@.len() - i,
        {
            i = i + 1;
        }
        proof {
            lemma_scheme_part(v@, i as int);
        }
        let head = crate::text::slice(&v, 0, i);
        let l = to_ascii_lower(&head);
        classify(&l)
    }

    /// The protocol of a parsed URL, by its scheme.
    pub fn from_url(url: &Address) -> (r: Protocol)
        ensures
            r == protocol_of_scheme(lower(url@.scheme)),
    {
        get_protocol(url.scheme())
    }

    /// The port used when the URL names none.
    pub fn default_port(self) -> (r: u16)
        ensures
            r == default_port_of(self),
    {
        match self {
            Protocol::Finger => 79,
            Protocol::Gemini => 1965,
            Protocol::Gopher(_) => 70,
            Protocol::Guppy => 6775,
            Protocol::Nex => 1900,
            Protocol::Scorpion => 1517,
            Protocol::Scroll => 5699,
            Protocol::Spartan => 300,
            Protocol::TextProtocol => 1961,
            _ => 0,
        }
    }
}

/// What a fetch sends: the request line (without its CRLF), whether it goes
/// over TLS, and where to.
pub struct Request {
    pub body: String,
    pub secure: bool,
    pub host: String,
    pub port: u16,
}

/// The path a request names: `/` for an empty path.
pub open spec fn request_path(path: Seq<char>) -> Seq<char> {
    if path.len() == 0 {
        seq!['/']
    } else {
        path
    }
}

/// The request line of each protocol, and whether it is sent over TLS;
/// `None` for what is not a protocol to fetch.
pub open spec fn request_line(
    protocol: Protocol,
    full: Seq<char>,
    host: Seq<char>,
    path: Seq<char>,
    query: Option<Seq<char>>,
) -> Option<(Seq<char>, bool)> {
    let p = request_path(path);
    match protocol {
        Protocol::Finger => Some(
            (if p.len() > 0 && p[0] == '/' {
                p.drop_first()
            } else {
                p
            }, false),
        ),
        Protocol::Gemini => Some((full, true)),
        Protocol::Gopher(secure) => Some(
            (match query {
                Some(q) => p + seq!['\t'] + q,
                None => p,
            }, secure),
        ),
        Protocol::Guppy => Some((full, false)),
        Protocol::Nex => Some((p, false)),
        Protocol::Scorpion => Some((seq!['R', ' '] + full, false)),
        Protocol::Scroll => Some((full + seq![' ', 'e', 'n'], true)),
        Protocol::Spartan => Some(
            (host + seq![' '] + p + seq![' '] + match query {
                Some(q) => decimal(encode_utf8(q).len()) + seq!['\n'] + q,
                None => seq!['0'],
            }, false),
        ),
        Protocol::TextProtocol => Some((full, false)),
        _ => None,
    }
}

/// The request for `url` under `protocol`: `None` exactly when the protocol
/// is not one to fetch or the URL has no host.
pub open spec fn request_for(url: AddressView, protocol: Protocol) -> Option<(Seq<char>, bool, Seq<char>, u16)> {
    match url.host {
        None => None,
        Some(h) => match request_line(protocol, url.serialization, h, url.path, url.query) {
            None => None,
            Some(line) => Some(
                (line.0, line.1, h, match url.port {
                    Some(p) => p,
                    None => default_port_of(protocol),
                }),
            ),
        },
    }
}

/// Builds the request that fetching `url` with `protocol` sends.
pub fn build_request(url: &Address, protocol: Protocol) -> (r: Option<Request>)
    ensures
        match request_for(url@, protocol) {
            None => r is None,
            Some(q) => r matches Some(req) && req.body@ == q.0 && req.secure == q.1 && req.host@
                == q.2 && req.port == q.3,
        },
{
    let host = match url.host() {
        Some(h) => h,
        None => return None,
    };
    let full = chars_of(url.serialization());
    let mut path = chars_of(url.path());
    if path.len() == 0 {
        path.push('/');
    }
    assert(path@ == request_path(url@.path));
    let mut body: Vec<char> = Vec::new();
    let secure: bool;
    match protocol {
        Protocol::Finger => {
            if path.len() > 0 && path[0] == '/' {
                body = crate::text::slice(&path, 1, path.len());
                assert(body@ =~= path@.drop_first());
            } else {
                body = path;
            }
            secure = false;
        },
        Protocol::Gemini => {
            body = full;
            secure = true;
        },
        Protocol::Gopher(s) => {
            append(&mut body, &path);
            match url.query() {
                Some(q) => {
                    body.push('\t');
                    let qc = chars_of(q);
                    append(&mut body, &qc);
                },
                None => {},
            }
            secure = s;
        },
        Protocol::Guppy => {
            body = full;
            secure = false;
        },
        Protocol::Nex => {
            body = path;
            secure = false;
        },
        Protocol::Scorpion => {
            body.push('R');
            body.push(' ');
            append(&mut body, &full);
            secure = false;
        },
        Protocol::Scroll => {
            body = full;
            body.push(' ');
            body.push('e');
            body.push('n');
            secure = true;
        },
        Protocol::Spartan => {
            let hc = chars_of(host);
            append(&mut body, &hc);
            body.push(' ');
            append(&mut body, &path);
            body.push(' ');
            match url.query() {
                Some(q) => {
                    let qs = q;
                    let n = qs.as_bytes().len();
                    assert(n == encode_utf8(q@).len());
                    push_decimal(&mut body, n as u64);
                    body.push('\n');
                    let qc = chars_of(qs);
                    append(&mut body, &qc);
                },
                None => {
                    body.push('0');
                },
            }
            secure = false;
        },
        Protocol::TextProtocol => {
            body = full;
            secure = false;
        },
        _ => {
            return None;
        },
    }
    let port = match url.port() {
        Some(p) => p,
        None => protocol.default_port(),
    };
    assert(request_for(url@, protocol) is Some);
    assert(body@ =~= request_for(url@, protocol)->Some_0.0);
    let r = Request { body: string_of(&body), secure, host: string_of(&chars_of(host)), port };
    proof {
        let q = request_for(url@, protocol)->Some_0;
        assert(r.body@ =~= q.0);
    }
    Some(r)
}

} // verus!
