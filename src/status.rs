//! The response parser: splits a raw response into its status line and body,
//! and decodes the status line into each protocol's status taxonomy.
use vstd::prelude::*;
use crate::protocol::Protocol;
use crate::text::{lossy_string, utf8_lossy};

verus! {

#[derive(Debug)]
pub enum GeminiStatus {
    /// The prompt, and whether the input is sensitive.
    InputExpected(String, bool),
    Success(String),
    TemporaryRedirect(String),
    PermanentRedirect(String),
    TemporaryFailure(String),
    ServerUnavailable(String),
    CGIError(String),
    ProxyError(String),
    SlowDown(String),
    PermanentFailure(String),
    NotFound(String),
    Gone(String),
    ProxyRequestRefused(String),
    BadRequest(String),
    RequiresClientCertificate,
    CertificateNotAuthorized,
    CertificateNotValid,
}

#[derive(Debug)]
pub enum SpartanStatus {
    Success(String),
    Redirect(String),
    ClientError(String),
    ServerError(String),
}

#[derive(Debug)]
pub enum ScorpionStatus {
    Interactive,
    InputRequired,
    OK,
    PartialOK,
    TemporaryRedirect(String),
    PermanentRedirect(String),
    TemporaryError,
    DownForMaintenance,
    DynamicFileError,
    ProxyError,
    SlowDown,
    TemporarilyLockedFile,
    PermanentError(String),
    FileNotFound(String),
    FileRemoved(String),
    ProxyRequestRefused,
    Forbidden,
    EditConflict,
    CredentialsRequired,
    BadRequest,
    RequiresClientCertificate,
    CertificateNotAuthorized,
    CertificateNotValid,
    ReadyNewFile,
    ReadyModifyFile,
    ReadyOther,
    AcceptedNewFile,
    AcceptedFileModified,
    AcceptedOther,
}

#[derive(Debug)]
pub enum TextProtocolStatus {
    OK(String),
    Redirect(String),
    NOK(String),
}

#[derive(Debug)]
pub enum ServerStatus {
    Gemini(GeminiStatus),
    Scorpion(ScorpionStatus),
    Spartan(SpartanStatus),
    TextProtocol(TextProtocolStatus),
    /// Success with the given content type, for protocols without status
    /// codes.
    Success(String),
}

/// A response: the body and the decoded status.
#[derive(Debug)]
pub struct ServerResponse {
    pub content: Vec<u8>,
    pub status: ServerStatus,
}

/// Why a response could not be decoded.
#[derive(Debug, Clone, Copy, PartialEq, Eq, Structural)]
pub enum ResponseError {
    /// The response has no status line, or the line is not a code, a space
    /// and meta text, or the code is not one the protocol defines.
    MalformedStatusLine,
}

/// The Gemini (and Scroll) codes, with the variant each one gives.
pub open spec fn gemini_status_is(s: GeminiStatus, code: int, meta: Seq<char>) -> bool {
    match s {
        GeminiStatus::InputExpected(m, sensitive) => ((code == 10 && !sensitive) || (code == 11
            && sensitive)) && m@ == meta,
        GeminiStatus::Success(m) => 20 <= code <= 29 && m@ == meta,
        GeminiStatus::TemporaryRedirect(m) => code == 30 && m@ == meta,
        GeminiStatus::PermanentRedirect(m) => code == 31 && m@ == meta,
        GeminiStatus::TemporaryFailure(m) => code == 40 && m@ == meta,
        GeminiStatus::ServerUnavailable(m) => code == 41 && m@ == meta,
        GeminiStatus::CGIError(m) => code == 42 && m@ == meta,
        GeminiStatus::ProxyError(m) => code == 43 && m@ == meta,
        GeminiStatus::SlowDown(m) => code == 44 && m@ == meta,
        GeminiStatus::PermanentFailure(m) => code == 50 && m@ == meta,
        GeminiStatus::NotFound(m) => code == 51 && m@ == meta,
        GeminiStatus::Gone(m) => code == 52 && m@ == meta,
        GeminiStatus::ProxyRequestRefused(m) => code == 53 && m@ == meta,
        GeminiStatus::BadRequest(m) => code == 59 && m@ == meta,
        GeminiStatus::RequiresClientCertificate => code == 60,
        GeminiStatus::CertificateNotAuthorized => code == 61,
        GeminiStatus::CertificateNotValid => code == 62,
    }
}

pub open spec fn gemini_code_known(code: int) -> bool {
    (10 <= code <= 11) || (20 <= code <= 31) || (40 <= code <= 44) || (50 <= code <= 53) || code
        == 59 || (60 <= code <= 62)
}

pub open spec fn spartan_status_is(s: SpartanStatus, code: int, meta: Seq<char>) -> bool {
    match s {
        SpartanStatus::Success(m) => code == 2 && m@ == meta,
        SpartanStatus::Redirect(m) => code == 3 && m@ == meta,
        SpartanStatus::ClientError(m) => code == 4 && m@ == meta,
        SpartanStatus::ServerError(m) => code == 5 && m@ == meta,
    }
}

pub open spec fn spartan_code_known(code: int) -> bool {
    2 <= code <= 5
}

pub open spec fn text_status_is(s: TextProtocolStatus, code: int, meta: Seq<char>) -> bool {
    match s {
        TextProtocolStatus::OK(m) => code == 20 && m@ == meta,
        TextProtocolStatus::Redirect(m) => code == 30 && m@ == meta,
        TextProtocolStatus::NOK(m) => code == 40 && m@ == meta,
    }
}

pub open spec fn text_code_known(code: int) -> bool {
    code == 20 || code == 30 || code == 40
}

pub open spec fn scorpion_status_is(s: ScorpionStatus, code: int, meta: Seq<char>) -> bool {
    match s {
        ScorpionStatus::Interactive => code == 0,
        ScorpionStatus::InputRequired => code == 10,
        ScorpionStatus::OK => code == 20,
        ScorpionStatus::PartialOK => code == 21,
        ScorpionStatus::TemporaryRedirect(m) => code == 30 && m@ == meta,
        ScorpionStatus::PermanentRedirect(m) => code == 31 && m@ == meta,
        ScorpionStatus::TemporaryError => code == 40,
        ScorpionStatus::DownForMaintenance => code == 41,
        ScorpionStatus::DynamicFileError => code == 42,
        ScorpionStatus::ProxyError => code == 43,
        ScorpionStatus::SlowDown => code == 44,
        ScorpionStatus::TemporarilyLockedFile => code == 45,
        ScorpionStatus::PermanentError(m) => code == 50 && m@ == meta,
        ScorpionStatus::FileNotFound(m) => code == 51 && m@ == meta,
        ScorpionStatus::FileRemoved(m) => code == 52 && m@ == meta,
        ScorpionStatus::ProxyRequestRefused => code == 53,
        ScorpionStatus::Forbidden => code == 54,
        ScorpionStatus::EditConflict => code == 55,
        ScorpionStatus::CredentialsRequired => code == 56,
        ScorpionStatus::BadRequest => code == 59,
        ScorpionStatus::RequiresClientCertificate => code == 60,
        ScorpionStatus::CertificateNotAuthorized => code == 61,
        ScorpionStatus::CertificateNotValid => code == 62,
        ScorpionStatus::ReadyNewFile => code == 70,
        ScorpionStatus::ReadyModifyFile => code == 71,
        ScorpionStatus::ReadyOther => code == 72,
        ScorpionStatus::AcceptedNewFile => code == 80,
        ScorpionStatus::AcceptedFileModified => code == 81,
        ScorpionStatus::AcceptedOther => code == 82,
    }
}

pub open spec fn scorpion_code_known(code: int) -> bool {
    code == 0 || code == 10 || code == 20 || code == 21 || code == 30 || code == 31 || (40 <= code
        <= 45) || (50 <= code <= 56) || code == 59 || (60 <= code <= 62) || (70 <= code <= 72) || (
    80 <= code <= 82)
}

pub open spec fn is_digit(b: u8) -> bool {
    0x30 <= b <= 0x39
}

/// The value of a code of exactly two ASCII digits.
pub open spec fn two_digits(c: Seq<u8>) -> Option<int> {
    if c.len() == 2 && is_digit(c[0]) && is_digit(c[1]) {
        Some((c[0] - 0x30) * 10 + (c[1] - 0x30))
    } else {
        None
    }
}

/// The value of a code of exactly one ASCII digit.
pub open spec fn one_digit(c: Seq<u8>) -> Option<int> {
    if c.len() == 1 && is_digit(c[0]) {
        Some(c[0] - 0x30)
    } else {
        None
    }
}

/// The index of the first `x` in `b`, or the length of `b`.
pub open spec fn first_byte(b: Seq<u8>, x: u8) -> int
    decreases b.len(),
{
    if b.len() == 0 {
        0
    } else if b[0] == x {
        0
    } else {
        1 + first_byte(b.drop_first(), x)
    }
}

/// The status line (without its line ending) and the body of a response;
/// `None` when the response holds no newline.
pub open spec fn split_status(b: Seq<u8>) -> Option<(Seq<u8>, Seq<u8>)> {
    let k = first_byte(b, 0x0a);
    if k >= b.len() {
        None
    } else {
        let line = b.subrange(0, k);
        let line = if line.len() > 0 && line.last() == 0x0d {
            line.drop_last()
        } else {
            line
        };
        Some((line, b.subrange(k + 1, b.len() as int)))
    }
}

/// The code of a status line: what comes before its first space.
pub open spec fn code_part(line: Seq<u8>) -> Seq<u8> {
    line.subrange(0, first_byte(line, 0x20))
}

/// The meta text of a status line: what comes after its first space.
pub open spec fn meta_part(line: Seq<u8>) -> Seq<u8> {
    let k = first_byte(line, 0x20);
    if k >= line.len() {
        seq![]
    } else {
        line.subrange(k + 1, line.len() as int)
    }
}

/// Whether the protocol's responses begin with a status line.
pub open spec fn has_status_line(p: Protocol) -> bool {
    match p {
        Protocol::Gemini | Protocol::Scroll | Protocol::Spartan | Protocol::Scorpion
        | Protocol::TextProtocol | Protocol::Guppy => true,
        _ => false,
    }
}

/// Whether the status line carries a code that the protocol defines.
pub open spec fn status_known(p: Protocol, line: Seq<u8>) -> bool {
    let code = code_part(line);
    let has_space = first_byte(line, 0x20) < line.len();
    match p {
        Protocol::Gemini | Protocol::Scroll => has_space && match two_digits(code) {
            Some(n) => gemini_code_known(n),
            None => false,
        },
        Protocol::Spartan => has_space && match one_digit(code) {
            Some(n) => spartan_code_known(n),
            None => false,
        },
        Protocol::Scorpion => has_space && match two_digits(code) {
            Some(n) => scorpion_code_known(n),
            None => false,
        },
        Protocol::TextProtocol => has_space && match two_digits(code) {
            Some(n) => text_code_known(n),
            None => false,
        },
        _ => true,
    }
}

/// The status that a (known) status line gives under a protocol.
pub open spec fn status_is(s: ServerStatus, p: Protocol, line: Seq<u8>) -> bool {
    let code = code_part(line);
    let meta = utf8_lossy(meta_part(line));
    match p {
        Protocol::Gemini | Protocol::Scroll => match (s, two_digits(code)) {
            (ServerStatus::Gemini(g), Some(n)) => gemini_status_is(g, n, meta),
            _ => false,
        },
        Protocol::Spartan => match (s, one_digit(code)) {
            (ServerStatus::Spartan(g), Some(n)) => spartan_status_is(g, n, meta),
            _ => false,
        },
        Protocol::Scorpion => match (s, two_digits(code)) {
            (ServerStatus::Scorpion(g), Some(n)) => scorpion_status_is(g, n, meta),
            _ => false,
        },
        Protocol::TextProtocol => match (s, two_digits(code)) {
            (ServerStatus::TextProtocol(g), Some(n)) => text_status_is(g, n, meta),
            _ => false,
        },
        _ => match s {
            ServerStatus::Success(m) => m@ == utf8_lossy(line),
            _ => false,
        },
    }
}

/// What parsing a raw response gives under a protocol.
pub open spec fn response_is(
    r: Result<ServerResponse, ResponseError>,
    b: Seq<u8>,
    p: Protocol,
) -> bool {
    if !has_status_line(p) {
        match r {
            Ok(resp) => resp.content@ == b && match resp.status {
                ServerStatus::Success(m) => m@ == seq!['t', 'e', 'x', 't', '/', 'p', 'l', 'a', 'i', 'n'],
                _ => false,
            },
            Err(_) => false,
        }
    } else {
        match split_status(b) {
            None => r == Err::<ServerResponse, ResponseError>(ResponseError::MalformedStatusLine),
            Some((line, body)) => if status_known(p, line) {
                match r {
                    Ok(resp) => resp.content@ == body && status_is(resp.status, p, line),
                    Err(_) => false,
                }
            } else {
                r == Err::<ServerResponse, ResponseError>(ResponseError::MalformedStatusLine)
            },
        }
    }
}

impl GeminiStatus {
    /// The status for a numeric code and its meta text; `None` for a code
    /// Gemini does not define.
    pub fn from_code(code: u8, meta: String) -> (r: Option<GeminiStatus>)
        ensures
            r is Some <==> gemini_code_known(code as int),
            r matches Some(s) ==> gemini_status_is(s, code as int, meta@),
    {
        match code {
            10 => Some(GeminiStatus::InputExpected(meta, false)),
            11 => Some(GeminiStatus::InputExpected(meta, true)),
            20..=29 => Some(GeminiStatus::Success(meta)),
            30 => Some(GeminiStatus::TemporaryRedirect(meta)),
            31 => Some(GeminiStatus::PermanentRedirect(meta)),
            40 => Some(GeminiStatus::TemporaryFailure(meta)),
            41 => Some(GeminiStatus::ServerUnavailable(meta)),
            42 => Some(GeminiStatus::CGIError(meta)),
            43 => Some(GeminiStatus::ProxyError(meta)),
            44 => Some(GeminiStatus::SlowDown(meta)),
            50 => Some(GeminiStatus::PermanentFailure(meta)),
            51 => Some(GeminiStatus::NotFound(meta)),
            52 => Some(GeminiStatus::Gone(meta)),
            53 => Some(GeminiStatus::ProxyRequestRefused(meta)),
            59 => Some(GeminiStatus::BadRequest(meta)),
            60 => Some(GeminiStatus::RequiresClientCertificate),
            61 => Some(GeminiStatus::CertificateNotAuthorized),
            62 => Some(GeminiStatus::CertificateNotValid),
            _ => None,
        }
    }
}

impl SpartanStatus {
    /// The status for a numeric code and its meta text; `None` for a code
    /// Spartan does not define.
    pub fn from_code(code: u8, meta: String) -> (r: Option<SpartanStatus>)
        ensures
            r is Some <==> spartan_code_known(code as int),
            r matches Some(s) ==> spartan_status_is(s, code as int, meta@),
    {
        match code {
            2 => Some(SpartanStatus::Success(meta)),
            3 => Some(SpartanStatus::Redirect(meta)),
            4 => Some(SpartanStatus::ClientError(meta)),
            5 => Some(SpartanStatus::ServerError(meta)),
            _ => None,
        }
    }
}

impl TextProtocolStatus {
    /// The status for a numeric code and its meta text; `None` for a code
    /// the text protocol does not define.
    pub fn from_code(code: u8, meta: String) -> (r: Option<TextProtocolStatus>)
        ensures
            r is Some <==> text_code_known(code as int),
            r matches Some(s) ==> text_status_is(s, code as int, meta@),
    {
        match code {
            20 => Some(TextProtocolStatus::OK(meta)),
            30 => Some(TextProtocolStatus::Redirect(meta)),
            40 => Some(TextProtocolStatus::NOK(meta)),
            _ => None,
        }
    }
}

impl ScorpionStatus {
    /// The status for a numeric code and its meta text; `None` for a code
    /// Scorpion does not define.
    pub fn from_code(code: u8, meta: String) -> (r: Option<ScorpionStatus>)
        ensures
            r is Some <==> scorpion_code_known(code as int),
            r matches Some(s) ==> scorpion_status_is(s, code as int, meta@),
    {
        match code {
            0 => Some(ScorpionStatus::Interactive),
            10 => Some(ScorpionStatus::InputRequired),
            20 => Some(ScorpionStatus::OK),
            21 => Some(ScorpionStatus::PartialOK),
            30 => Some(ScorpionStatus::TemporaryRedirect(meta)),
            31 => Some(ScorpionStatus::PermanentRedirect(meta)),
            40 => Some(ScorpionStatus::TemporaryError),
            41 => Some(ScorpionStatus::DownForMaintenance),
            42 => Some(ScorpionStatus::DynamicFileError),
            43 => Some(ScorpionStatus::ProxyError),
            44 => Some(ScorpionStatus::SlowDown),
            45 => Some(ScorpionStatus::TemporarilyLockedFile),
            50 => Some(ScorpionStatus::PermanentError(meta)),
            51 => Some(ScorpionStatus::FileNotFound(meta)),
            52 => Some(ScorpionStatus::FileRemoved(meta)),
            53 => Some(ScorpionStatus::ProxyRequestRefused),
            54 => Some(ScorpionStatus::Forbidden),
            55 => Some(ScorpionStatus::EditConflict),
            56 => Some(ScorpionStatus::CredentialsRequired),
            59 => Some(ScorpionStatus::BadRequest),
            60 => Some(ScorpionStatus::RequiresClientCertificate),
            61 => Some(ScorpionStatus::CertificateNotAuthorized),
            62 => Some(ScorpionStatus::CertificateNotValid),
            70 => Some(ScorpionStatus::ReadyNewFile),
            71 => Some(ScorpionStatus::ReadyModifyFile),
            72 => Some(ScorpionStatus::ReadyOther),
            80 => Some(ScorpionStatus::AcceptedNewFile),
            81 => Some(ScorpionStatus::AcceptedFileModified),
            82 => Some(ScorpionStatus::AcceptedOther),
            _ => None,
        }
    }
}

/// The first `x` in `b` stands at `k` when none comes before and `k` is the
/// end or holds one.
pub proof fn lemma_first_byte(b: Seq<u8>, x: u8, k: int)
    requires
        0 <= k <= b.len(),
        forall|j: int| 0 <= j < k ==> b[j] != x,
        k == b.len() || b[k] == x,
    ensures
        first_byte(b, x) == k,
    decreases k,
{
    if k > 0 {
        lemma_first_byte(b.drop_first(), x, k - 1);
    }
}

/// The index of the first `x` in `b`, or the length of `b`.
fn find_byte(b: &[u8], x: u8) -> (r: usize)
    ensures
        r == first_byte(b@, x),
        r <= b@.len(),
{
    let mut i: usize = 0;
    while i < b.len() && b[i] != x
        invariant
            0 <= i <= b@.len(),
            forall|j: int| 0 <= j < i ==> b@[j] != x,
        decreases b@.len() - i,
    {
        i = i + 1;
    }
    proof {
        lemma_first_byte(b@, x, i as int);
    }
    i
}

/// The bytes of `b` from `a` to `e`.
pub fn byte_slice(b: &[u8], a: usize, e: usize) -> (r: Vec<u8>)
    requires
        a <= e <= b@.len(),
    ensures
        r@ == b@.subrange(a as int, e as int),
{
    let mut v: Vec<u8> = Vec::new();
    let mut i: usize = a;
    while i < e
        invariant
            a <= i <= e <= b@.len(),
            v@ == b@.subrange(a as int, i as int),
        decreases e - i,
    {
        v.push(b[i]);
        i = i + 1;
        proof {
            assert(v@ =~= b@.subrange(a as int, i as int));
        }
    }
    v
}

/// Parses a raw response under a protocol: the status line, when the
/// protocol has one, is split off (its CR LF ending dropped) and decoded: it
/// must be a code the protocol defines, a space, and meta text.
pub fn parse_server_response(response: &[u8], protocol: Protocol) -> (r: Result<
    ServerResponse,
    ResponseError,
>)
    ensures
        response_is(r, response@, protocol),
{
    match protocol {
        Protocol::Gemini | Protocol::Scroll | Protocol::Spartan | Protocol::Scorpion
        | Protocol::TextProtocol | Protocol::Guppy => {},
        _ => {
            let mut content: Vec<u8> = Vec::new();
            let mut i: usize = 0;
            while i < response.len()
                invariant
                    0 <= i <= response@.len(),
                    content@ == response@.subrange(0, i as int),
                decreases response@.len() - i,
            {
                content.push(response[i]);
                i = i + 1;
                proof {
                    assert(content@ =~= response@.subrange(0, i as int));
                }
            }
            proof {
                assert(response@.subrange(0, response@.len() as int) =~= response@);
            }
            let plain = ['t', 'e', 'x', 't', '/', 'p', 'l', 'a', 'i', 'n'];
            assert(plain@ =~= seq!['t', 'e', 'x', 't', '/', 'p', 'l', 'a', 'i', 'n']);
            return Ok(
                ServerResponse { content, status: ServerStatus::Success(crate::text::string_of(&plain)) },
            );
        },
    }
    let k = find_byte(response, 0x0a);
    if k >= response.len() {
        return Err(ResponseError::MalformedStatusLine);
    }
    let mut e = k;
    if e > 0 && response[e - 1] == 0x0d {
        e = e - 1;
    }
    let line = byte_slice(response, 0, e);
    let body = byte_slice(response, k + 1, response.len());
    proof {
        let s = split_status(response@)->Some_0;
        assert(line@ =~= s.0);
        assert(body@ =~= s.1);
    }
    if let Protocol::Guppy = protocol {
        let content_type = lossy_string(line.as_slice());
        return Ok(ServerResponse { content: body, status: ServerStatus::Success(content_type) });
    }
    let sp = find_byte(&line, 0x20);
    if sp >= line.len() {
        return Err(ResponseError::MalformedStatusLine);
    }
    let code = byte_slice(&line, 0, sp);
    let meta_bytes = if sp >= line.len() {
        Vec::new()
    } else {
        byte_slice(&line, sp + 1, line.len())
    };
    proof {
        assert(code@ =~= code_part(line@));
        assert(meta_bytes@ =~= meta_part(line@));
    }
    let meta = lossy_string(meta_bytes.as_slice());
    let value: Option<u8> = if code.len() == 2 && 0x30 <= code[0] && code[0] <= 0x39 && 0x30
        <= code[1] && code[1] <= 0x39 {
        Some((code[0] - 0x30) * 10 + (code[1] - 0x30))
    } else if code.len() == 1 && 0x30 <= code[0] && code[0] <= 0x39 {
        Some(code[0] - 0x30)
    } else {
        None
    };
    let n = match value {
        Some(n) => n,
        None => return Err(ResponseError::MalformedStatusLine),
    };
    let status = match protocol {
        Protocol::Spartan => {
            if code.len() != 1 {
                return Err(ResponseError::MalformedStatusLine);
            }
            match SpartanStatus::from_code(n, meta) {
                Some(s) => ServerStatus::Spartan(s),
                None => return Err(ResponseError::MalformedStatusLine),
            }
        },
        _ => {
            if code.len() != 2 {
                return Err(ResponseError::MalformedStatusLine);
            }
            match protocol {
                Protocol::Scorpion => match ScorpionStatus::from_code(n, meta) {
                    Some(s) => ServerStatus::Scorpion(s),
                    None => return Err(ResponseError::MalformedStatusLine),
                },
                Protocol::TextProtocol => match TextProtocolStatus::from_code(n, meta) {
                    Some(s) => ServerStatus::TextProtocol(s),
                    None => return Err(ResponseError::MalformedStatusLine),
                },
                _ => match GeminiStatus::from_code(n, meta) {
                    Some(s) => ServerStatus::Gemini(s),
                    None => return Err(ResponseError::MalformedStatusLine),
                },
            }
        },
    };
    Ok(ServerResponse { content: body, status })
}

} // verus!
