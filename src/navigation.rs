//! The navigation state machine: starting a navigation yields the request
//! to fetch; the fetch's outcome, handed back, yields the new page, an input
//! prompt, or a redirect to follow. Fetching itself is left to the caller.
use vstd::prelude::*;
use vstd::utf8::encode_utf8;
use crate::handlers::{content_after, content_shown, lemma_shown_text, ContentHandlers};
use crate::history::{add_entry, history_pop, history_push, remove_latest_entry, History, HistoryEntry};
use crate::location::{
    joined_url, opt_address, parsed_url, path_set, plain_path, query_set, Address, AddressView,
};
use crate::protocol::{build_request, protocol_of_scheme, request_for, scheme_part, Protocol, Request};
use crate::status::{
    GeminiStatus, ResponseError, ScorpionStatus, ServerResponse, ServerStatus, SpartanStatus,
    TextProtocolStatus,
};
use crate::text::{append, chars_of, ends_with, lossy_string, lower, string_of};

verus! {

/// The fetch in progress: how its body is to be parsed, and the token that
/// tells its outcome from that of an earlier, abandoned fetch.
pub struct NavigationJob {
    pub plaintext: bool,
    pub protocol: Protocol,
    pub generation: u64,
}

/// A server's request for input.
pub struct InputRequest {
    pub prompt: String,
    /// Whether the input should be masked.
    pub sensitive: bool,
    /// The URL the input is sent to, as its query.
    pub destination: String,
}

/// A navigation to start next.
pub struct NavigationHint {
    pub url: String,
    pub protocol: Protocol,
    pub add_to_history: bool,
}

/// What the caller is to fetch: the request, and the token to hand back
/// with its outcome.
pub struct FetchOrder {
    pub request: Request,
    pub protocol: Protocol,
    pub generation: u64,
}

/// Why a fetch gave no response.
pub enum FetchError {
    /// Connecting, the TLS handshake, or reading and writing failed.
    Transport(String),
    /// The response could not be decoded.
    Response(ResponseError),
}

#[derive(Clone, Copy, Debug, PartialEq, Eq, Structural)]
pub enum CertificateProblem {
    Required,
    NotAuthorized,
    NotValid,
}

/// What a status asks the client to do.
pub enum StatusAction {
    /// Parse and show the body.
    Render,
    /// Ask the user for input: the prompt, and whether to mask it.
    Prompt(String, bool),
    /// Go to the target.
    Redirect(String),
    /// Show a failure, with the server's detail text.
    Failure(String),
    Certificate(CertificateProblem),
    /// Nothing to do.
    Unhandled,
}

pub open spec fn is_redirect_to(a: StatusAction, t: String) -> bool {
    match a {
        StatusAction::Redirect(u) => u@ == t@,
        _ => false,
    }
}

pub open spec fn is_failure_with(a: StatusAction, d: Seq<char>) -> bool {
    match a {
        StatusAction::Failure(e) => e@ == d,
        _ => false,
    }
}

pub open spec fn is_certificate(a: StatusAction, c: CertificateProblem) -> bool {
    match a {
        StatusAction::Certificate(k) => k == c,
        _ => false,
    }
}

/// The action each status asks for.
pub open spec fn action_is(a: StatusAction, s: ServerStatus) -> bool {
    match s {
        ServerStatus::Gemini(g) => match g {
            GeminiStatus::InputExpected(p, b) => match a {
                StatusAction::Prompt(q, c) => q@ == p@ && c == b,
                _ => false,
            },
            GeminiStatus::Success(_) => a is Render,
            GeminiStatus::TemporaryRedirect(t) => is_redirect_to(a, t),
            GeminiStatus::PermanentRedirect(t) => is_redirect_to(a, t),
            GeminiStatus::TemporaryFailure(d) => is_failure_with(a, d@),
            GeminiStatus::ServerUnavailable(d) => is_failure_with(a, d@),
            GeminiStatus::CGIError(d) => is_failure_with(a, d@),
            GeminiStatus::ProxyError(d) => is_failure_with(a, d@),
            GeminiStatus::SlowDown(d) => is_failure_with(a, d@),
            GeminiStatus::PermanentFailure(d) => is_failure_with(a, d@),
            GeminiStatus::NotFound(d) => is_failure_with(a, d@),
            GeminiStatus::Gone(d) => is_failure_with(a, d@),
            GeminiStatus::ProxyRequestRefused(d) => is_failure_with(a, d@),
            GeminiStatus::BadRequest(d) => is_failure_with(a, d@),
            GeminiStatus::RequiresClientCertificate => is_certificate(a, CertificateProblem::Required),
            GeminiStatus::CertificateNotAuthorized => is_certificate(
                a,
                CertificateProblem::NotAuthorized,
            ),
            GeminiStatus::CertificateNotValid => is_certificate(a, CertificateProblem::NotValid),
        },
        ServerStatus::Spartan(g) => match g {
            SpartanStatus::Success(_) => a is Render,
            SpartanStatus::Redirect(t) => is_redirect_to(a, t),
            SpartanStatus::ClientError(d) => is_failure_with(a, d@),
            SpartanStatus::ServerError(d) => is_failure_with(a, d@),
        },
        ServerStatus::TextProtocol(g) => match g {
            TextProtocolStatus::OK(_) => a is Render,
            TextProtocolStatus::Redirect(t) => is_redirect_to(a, t),
            TextProtocolStatus::NOK(d) => is_failure_with(a, d@),
        },
        ServerStatus::Scorpion(g) => match g {
            ScorpionStatus::OK => a is Render,
            ScorpionStatus::TemporaryRedirect(t) => is_redirect_to(a, t),
            ScorpionStatus::PermanentRedirect(t) => is_redirect_to(a, t),
            ScorpionStatus::PermanentError(d) => is_failure_with(a, d@),
            ScorpionStatus::FileNotFound(d) => is_failure_with(a, d@),
            ScorpionStatus::FileRemoved(d) => is_failure_with(a, d@),
            ScorpionStatus::TemporaryError | ScorpionStatus::DownForMaintenance
            | ScorpionStatus::DynamicFileError | ScorpionStatus::ProxyError
            | ScorpionStatus::SlowDown | ScorpionStatus::TemporarilyLockedFile
            | ScorpionStatus::ProxyRequestRefused | ScorpionStatus::Forbidden
            | ScorpionStatus::EditConflict | ScorpionStatus::CredentialsRequired
            | ScorpionStatus::BadRequest => is_failure_with(a, seq![]),
            ScorpionStatus::RequiresClientCertificate => is_certificate(
                a,
                CertificateProblem::Required,
            ),
            ScorpionStatus::CertificateNotAuthorized => is_certificate(
                a,
                CertificateProblem::NotAuthorized,
            ),
            ScorpionStatus::CertificateNotValid => is_certificate(
                a,
                CertificateProblem::NotValid,
            ),
            _ => a is Unhandled,
        },
        ServerStatus::Success(_) => a is Render,
    }
}

fn copy_string(s: &String) -> (r: String)
    ensures
        r@ == s@,
{
    s.clone()
}

/// The action a status asks for.
pub fn classify_status(s: &ServerStatus) -> (r: StatusAction)
    ensures
        action_is(r, *s),
{
    match s {
        ServerStatus::Gemini(g) => match g {
            GeminiStatus::InputExpected(p, b) => StatusAction::Prompt(copy_string(p), *b),
            GeminiStatus::Success(_) => StatusAction::Render,
            GeminiStatus::TemporaryRedirect(t) => StatusAction::Redirect(copy_string(t)),
            GeminiStatus::PermanentRedirect(t) => StatusAction::Redirect(copy_string(t)),
            GeminiStatus::TemporaryFailure(d) => StatusAction::Failure(copy_string(d)),
            GeminiStatus::ServerUnavailable(d) => StatusAction::Failure(copy_string(d)),
            GeminiStatus::CGIError(d) => StatusAction::Failure(copy_string(d)),
            GeminiStatus::ProxyError(d) => StatusAction::Failure(copy_string(d)),
            GeminiStatus::SlowDown(d) => StatusAction::Failure(copy_string(d)),
            GeminiStatus::PermanentFailure(d) => StatusAction::Failure(copy_string(d)),
            GeminiStatus::NotFound(d) => StatusAction::Failure(copy_string(d)),
            GeminiStatus::Gone(d) => StatusAction::Failure(copy_string(d)),
            GeminiStatus::ProxyRequestRefused(d) => StatusAction::Failure(copy_string(d)),
            GeminiStatus::BadRequest(d) => StatusAction::Failure(copy_string(d)),
            GeminiStatus::RequiresClientCertificate => StatusAction::Certificate(
                CertificateProblem::Required,
            ),
            GeminiStatus::CertificateNotAuthorized => StatusAction::Certificate(
                CertificateProblem::NotAuthorized,
            ),
            GeminiStatus::CertificateNotValid => StatusAction::Certificate(
                CertificateProblem::NotValid,
            ),
        },
        ServerStatus::Spartan(g) => match g {
            SpartanStatus::Success(_) => StatusAction::Render,
            SpartanStatus::Redirect(t) => StatusAction::Redirect(copy_string(t)),
            SpartanStatus::ClientError(d) => StatusAction::Failure(copy_string(d)),
            SpartanStatus::ServerError(d) => StatusAction::Failure(copy_string(d)),
        },
        ServerStatus::TextProtocol(g) => match g {
            TextProtocolStatus::OK(_) => StatusAction::Render,
            TextProtocolStatus::Redirect(t) => StatusAction::Redirect(copy_string(t)),
            TextProtocolStatus::NOK(d) => StatusAction::Failure(copy_string(d)),
        },
        ServerStatus::Scorpion(g) => match g {
            ScorpionStatus::OK => StatusAction::Render,
            ScorpionStatus::TemporaryRedirect(t) => StatusAction::Redirect(copy_string(t)),
            ScorpionStatus::PermanentRedirect(t) => StatusAction::Redirect(copy_string(t)),
            ScorpionStatus::PermanentError(d) => StatusAction::Failure(copy_string(d)),
            ScorpionStatus::FileNotFound(d) => StatusAction::Failure(copy_string(d)),
            ScorpionStatus::FileRemoved(d) => StatusAction::Failure(copy_string(d)),
            ScorpionStatus::TemporaryError | ScorpionStatus::DownForMaintenance
            | ScorpionStatus::DynamicFileError | ScorpionStatus::ProxyError
            | ScorpionStatus::SlowDown | ScorpionStatus::TemporarilyLockedFile
            | ScorpionStatus::ProxyRequestRefused | ScorpionStatus::Forbidden
            | ScorpionStatus::EditConflict | ScorpionStatus::CredentialsRequired
            | ScorpionStatus::BadRequest => StatusAction::Failure(String::new()),
            ScorpionStatus::RequiresClientCertificate => StatusAction::Certificate(
                CertificateProblem::Required,
            ),
            ScorpionStatus::CertificateNotAuthorized => StatusAction::Certificate(
                CertificateProblem::NotAuthorized,
            ),
            ScorpionStatus::CertificateNotValid => StatusAction::Certificate(
                CertificateProblem::NotValid,
            ),
            _ => StatusAction::Unhandled,
        },
        ServerStatus::Success(_) => StatusAction::Render,
    }
}

pub open spec fn invalid_url_text() -> Seq<char> {
    "Invalid URL"@
}

pub open spec fn bad_response_text() -> Seq<char> {
    "The server sent a response that could not be understood."@
}

pub open spec fn failure_text(detail: Seq<char>) -> Seq<char> {
    "The requested resource could not be found.\n\nAdditional information:\n\n"@ + detail
}

pub open spec fn certificate_text(c: CertificateProblem) -> Seq<char> {
    match c {
        CertificateProblem::Required => "The requested resource requires a client certificate. Create one, then make it the active identity."@,
        CertificateProblem::NotAuthorized => "Your client certificate is not authorized to access this resource"@,
        CertificateProblem::NotValid => "The requested resource is unavailable as your client certificate is invalid. Check to see if your certificate has expired."@,
    }
}

/// Whether a URL names a plaintext file.
pub open spec fn is_plaintext_path(s: Seq<char>) -> bool {
    s.len() >= 4 && s.subrange(s.len() - 4, s.len() as int) == seq!['.', 't', 'x', 't']
}

fn plaintext_path(s: &str) -> (r: bool)
    ensures
        r == is_plaintext_path(s@),
{
    let v = chars_of(s);
    let ext = ['.', 't', 'x', 't'];
    assert(ext@ =~= seq!['.', 't', 'x', 't']);
    ends_with(&v, &ext)
}

/// Shows a message as literal text in the parser of a protocol's family.
fn show_message(content: &mut ContentHandlers, text: &str, protocol: Protocol)
    ensures
        final(content)@ == content_shown(old(content)@, text@, protocol),
{
    let bytes = text.as_bytes();
    let decoded = lossy_string(bytes);
    proof {
        vstd::utf8::encode_utf8_valid_utf8(text@);
        vstd::utf8::encode_utf8_decode_utf8(text@);
        assert(decoded@ == text@);
        lemma_shown_text(content@, bytes@, text@, protocol);
    }
    content.parse_content(bytes, true, protocol);
}

/// The failure message with the server's detail.
fn failure_message(detail: &str) -> (r: String)
    ensures
        r@ == failure_text(detail@),
{
    let prefix = "The requested resource could not be found.\n\nAdditional information:\n\n";
    let mut v = chars_of(prefix);
    append(&mut v, &chars_of(detail));
    string_of(&v)
}

fn certificate_message(c: CertificateProblem) -> (r: &'static str)
    ensures
        r@ == certificate_text(c),
{
    match c {
        CertificateProblem::Required => "The requested resource requires a client certificate. Create one, then make it the active identity.",
        CertificateProblem::NotAuthorized => "Your client certificate is not authorized to access this resource",
        CertificateProblem::NotValid => "The requested resource is unavailable as your client certificate is invalid. Check to see if your certificate has expired.",
    }
}

/// Where a redirect to `t` leads from `cur`: a target starting with `/`
/// replaces the path; any other is resolved against the current URL (an
/// absolute one replaces it).
pub open spec fn redirect_target(cur: AddressView, t: Seq<char>) -> Option<AddressView> {
    if t.len() > 0 && t[0] == '/' {
        Some(path_set(cur, t))
    } else {
        joined_url(cur, t)
    }
}

/// Where a redirect leads: a target starting with `/` replaces the path of
/// the current URL (scheme, host, port and query stay, and a plain path is
/// taken as it is); any other is resolved against the current URL.
pub fn resolve_redirect(current: &Address, target: &str) -> (r: Option<Address>)
    ensures
        opt_address(r) == redirect_target(current@, target@),
        target@.len() > 0 && target@[0] == '/' ==> (r matches Some(u) && u@.scheme
            == current@.scheme && u@.host == current@.host && u@.port == current@.port && u@.query
            == current@.query),
        target@.len() > 0 && target@[0] == '/' && current@.host is Some && plain_path(target@) ==> (
        r matches Some(u) && u@.path == target@),
{
    let t = chars_of(target);
    if t.len() > 0 && t[0] == '/' {
        Some(current.with_path(target))
    } else {
        current.join(target)
    }
}

/// The navigation a link to `path`, resolved to `u`, starts.
pub open spec fn link_hint_is(h: NavigationHint, u: AddressView, path: Seq<char>) -> bool {
    &&& h.url@ == u.serialization
    &&& h.protocol == (if is_plaintext_path(path) {
        Protocol::Plaintext
    } else {
        protocol_of_scheme(lower(u.scheme))
    })
    &&& h.add_to_history
}

/// The navigation a followed link starts: to the resolved target, shown as
/// plaintext when the link names a `.txt` file and by the target's scheme
/// otherwise.
pub fn link_hint(target: &Address, path: &str) -> (r: NavigationHint)
    ensures
        link_hint_is(r, target@, path@),
{
    let protocol = if plaintext_path(path) {
        Protocol::Plaintext
    } else {
        Protocol::from_url(target)
    };
    NavigationHint { url: string_of(&chars_of(target.serialization())), protocol, add_to_history: true }
}

/// The navigation following a Gemtext link starts; `None` when the target
/// cannot be resolved.
pub fn follow_link(current: &Address, path: &str) -> (r: Option<NavigationHint>)
    ensures
        match joined_url(current@, path@) {
            None => r is None,
            Some(u) => r matches Some(h) && link_hint_is(h, u, path@),
        },
{
    match current.join(path) {
        Some(u) => Some(link_hint(&u, path)),
        None => None,
    }
}

/// The navigation submitting a Spartan prompt starts: the target with the
/// entered text as its query.
pub fn submit_prompt(current: &Address, path: &str, text: &str) -> (r: Option<NavigationHint>)
    ensures
        match joined_url(current@, path@) {
            None => r is None,
            Some(u) => r matches Some(h) && link_hint_is(h, query_set(u, text@), path@),
        },
{
    let joined = match current.join(path) {
        Some(u) => u,
        None => return None,
    };
    let u = joined.with_query(text);
    Some(link_hint(&u, path))
}

/// The URL a Scorpion hyperlink leads to: an attribute naming a scheme
/// (holding `://`) stands for itself; any other is resolved against the
/// current URL.
pub fn scorpion_link(current: &Address, attribute: &str) -> (r: Option<String>)
    ensures
        contains_scheme_marker(attribute@) ==> (r matches Some(s) && s@ == attribute@),
        !contains_scheme_marker(attribute@) ==> match joined_url(current@, attribute@) {
            None => r is None,
            Some(u) => r matches Some(s) && s@ == u.serialization,
        },
{
    let a = chars_of(attribute);
    let mut i: usize = 0;
    while i < a.len() && a.len() - i >= 3
        invariant
            0 <= i <= a@.len(),
            a@ == attribute@,
            forall|j: int| 0 <= j < i && j + 3 <= a@.len() ==> !marker_at(a@, j),
        decreases a@.len() - i,
    {
        if a[i] == ':' && a[i + 1] == '/' && a[i + 2] == '/' {
            assert(marker_at(a@, i as int));
            let whole = string_of(&a);
            return Some(whole);
        }
        i = i + 1;
    }
    proof {
        assert forall|j: int| 0 <= j && j + 3 <= a@.len() implies !#[trigger] marker_at(a@, j) by {
            assert(j < i);
        }
    }
    match current.join(attribute) {
        Some(u) => Some(string_of(&chars_of(u.serialization()))),
        None => None,
    }
}

pub open spec fn marker_at(s: Seq<char>, j: int) -> bool {
    s[j] == ':' && s[j + 1] == '/' && s[j + 2] == '/'
}

/// Whether `s` holds `://`.
pub open spec fn contains_scheme_marker(s: Seq<char>) -> bool {
    exists|j: int| 0 <= j && j + 3 <= s.len() && #[trigger] marker_at(s, j)
}

/// The client's navigation state: the current URL, the history, the parsed
/// pages, and at most one fetch in progress.
pub struct Navigator {
    pub current_url: Option<Address>,
    /// The protocol whose page is shown.
    pub view_protocol: Protocol,
    pub history: History,
    pub content: ContentHandlers,
    pub job: Option<NavigationJob>,
    pub input_request: Option<InputRequest>,
    pub generation: u64,
}

/// The token after `g`.
pub open spec fn next_generation(g: u64) -> u64 {
    if g == u64::MAX {
        0
    } else {
        (g + 1) as u64
    }
}

/// What starting a navigation to `url` (`None` when it did not parse) does:
/// the URL joins the history when asked; a URL that did not parse, names no
/// known protocol or has no host shows "Invalid URL" and fetches nothing;
/// otherwise the fetch to make is returned, and any earlier fetch is
/// abandoned.
pub open spec fn navigation_is(
    before: Navigator,
    after: Navigator,
    url: Option<Address>,
    hint: Option<Protocol>,
    add_to_history: bool,
    r: Option<FetchOrder>,
) -> bool {
    match url {
        None => {
            &&& r is None
            &&& after.job is None
            &&& after.view_protocol == Protocol::Unknown
            &&& after.current_url == before.current_url
            &&& after.history@ == before.history@
            &&& after.content@ == content_shown(before.content@, invalid_url_text(), Protocol::Unknown)
        },
        Some(u) => {
            let p = protocol_of_scheme(lower(u@.scheme));
            &&& add_to_history ==> after.history@ == history_push(
                before.history@,
                HistoryEntry {
                    url: u,
                    protocol: match hint {
                        Some(h) => h,
                        None => p,
                    },
                },
            )
            &&& !add_to_history ==> after.history@ == before.history@
            &&& after.current_url == Some(u)
            &&& after.view_protocol == p
            &&& match request_for(u@, p) {
                None => {
                    &&& r is None
                    &&& after.job is None
                    &&& after.content@ == content_shown(before.content@, invalid_url_text(), Protocol::Unknown)
                },
                Some(q) => {
                    let g = next_generation(before.generation);
                    &&& after.content@ == before.content@
                    &&& after.generation == g
                    &&& after.job matches Some(j) && j.protocol == p && j.generation
                        == g && j.plaintext == (hint == Some(Protocol::Plaintext)
                        || is_plaintext_path(u@.serialization))
                    &&& r matches Some(o) && o.protocol == p && o.generation == g
                        && o.request.body@ == q.0 && o.request.secure == q.1
                        && o.request.host@ == q.2 && o.request.port == q.3
                },
            }
        },
    }
}

impl Navigator {
    pub open spec fn wf(&self) -> bool {
        &&& self.history.wf()
        &&& self.job is Some ==> self.current_url is Some
    }

    pub fn new() -> (r: Navigator)
        ensures
            r.wf(),
            r.job is None,
            r.current_url is None,
            r.history@.entries.len() == 0,
    {
        Navigator {
            current_url: None,
            view_protocol: Protocol::Unknown,
            history: History::new(),
            content: ContentHandlers::new(),
            job: None,
            input_request: None,
            generation: 0,
        }
    }

    /// Starts a navigation to a parsed URL (`None` when the URL did not
    /// parse). The URL joins the history when asked; a URL that did not
    /// parse, names no known protocol or has no host shows "Invalid URL" and
    /// fetches nothing; otherwise the fetch to make is returned, and any
    /// earlier fetch is abandoned.
    pub fn navigate(&mut self, url: Option<Address>, hint: Option<Protocol>, add_to_history: bool) -> (r:
        Option<FetchOrder>)
        requires
            old(self).wf(),
        ensures
            final(self).wf(),
            navigation_is(*old(self), *final(self), url, hint, add_to_history, r),
    {
        let u = match url {
            Some(u) => u,
            None => {
                self.job = None;
                self.view_protocol = Protocol::Unknown;
                show_message(&mut self.content, "Invalid URL", Protocol::Unknown);
                return None;
            },
        };
        let p = Protocol::from_url(&u);
        if add_to_history {
            let entry_protocol = match hint {
                Some(h) => h,
                None => p,
            };
            add_entry(&mut self.history, u.clone(), entry_protocol);
        }
        self.view_protocol = p;
        let request = build_request(&u, p);
        let plaintext = match hint {
            Some(Protocol::Plaintext) => true,
            _ => false,
        } || plaintext_path(u.serialization());
        self.current_url = Some(u);
        match request {
            None => {
                self.job = None;
                show_message(&mut self.content, "Invalid URL", Protocol::Unknown);
                None
            },
            Some(request) => {
                let g = if self.generation == u64::MAX {
                    0
                } else {
                    self.generation + 1
                };
                self.generation = g;
                self.job = Some(NavigationJob { plaintext, protocol: p, generation: g });
                Some(FetchOrder { request, protocol: p, generation: g })
            },
        }
    }

    /// Starts a navigation to the URL in `target`: as `navigate` does with
    /// what parsing `target` gives.
    pub fn navigate_to(&mut self, target: &str, hint: Option<Protocol>, add_to_history: bool) -> (r:
        Option<FetchOrder>)
        requires
            old(self).wf(),
        ensures
            final(self).wf(),
            exists|url: Option<Address>|
                opt_address(url) == parsed_url(target@) && #[trigger] navigation_is(
                    *old(self),
                    *final(self),
                    url,
                    hint,
                    add_to_history,
                    r,
                ),
    {
        let url = Address::parse(target);
        let ghost parsed = url;
        let ghost before = *self;
        let r = self.navigate(url, hint, add_to_history);
        assert(navigation_is(before, *self, parsed, hint, add_to_history, r));
        r
    }

    /// Takes in the outcome of the fetch with token `generation`. An outcome
    /// of an abandoned fetch changes nothing. Otherwise the fetch is over
    /// and: a transport failure or an undecodable response is shown as
    /// literal text; a body to render goes to its protocol's parser; a
    /// request for input retracts the last history entry and records the
    /// prompt; failures and certificate problems are shown as messages; a
    /// redirect is returned as the navigation to start next, with the same
    /// protocol and into the history.
    pub fn complete(&mut self, generation: u64, outcome: Result<ServerResponse, FetchError>) -> (r:
        Option<NavigationHint>)
        requires
            old(self).wf(),
        ensures
            final(self).wf(),
            final(self).current_url == old(self).current_url,
            match old(self).job {
                None => r is None && final(self).content@ == old(self).content@ && final(self).job
                    is None && final(self).history@ == old(self).history@,
                Some(job) => if job.generation != generation {
                    &&& r is None
                    &&& final(self).content@ == old(self).content@
                    &&& final(self).history@ == old(self).history@
                    &&& final(self).job == old(self).job
                } else {
                    &&& final(self).job is None
                    &&& outcome_handled(
                        *old(self),
                        *final(self),
                        job,
                        outcome,
                        r,
                    )
                },
            },
    {
        let job = match &self.job {
            None => return None,
            Some(j) => NavigationJob { plaintext: j.plaintext, protocol: j.protocol, generation: j.generation },
        };
        if job.generation != generation {
            return None;
        }
        self.job = None;
        let resp = match outcome {
            Err(FetchError::Transport(m)) => {
                show_message(&mut self.content, m.as_str(), job.protocol);
                return None;
            },
            Err(FetchError::Response(_)) => {
                show_message(
                    &mut self.content,
                    "The server sent a response that could not be understood.",
                    job.protocol,
                );
                return None;
            },
            Ok(resp) => resp,
        };
        let action = classify_status(&resp.status);
        let ghost a = action;
        let ghost before = *old(self);
        let r = match action {
            StatusAction::Render => {
                self.content.parse_content(resp.content.as_slice(), job.plaintext, job.protocol);
                None
            },
            StatusAction::Prompt(prompt, sensitive) => {
                remove_latest_entry(&mut self.history);
                let destination = match &self.current_url {
                    Some(u) => string_of(&chars_of(u.serialization())),
                    None => String::new(),
                };
                self.input_request = Some(InputRequest { prompt, sensitive, destination });
                None
            },
            StatusAction::Redirect(target) => {
                let resolved = match &self.current_url {
                    Some(u) => resolve_redirect(u, target.as_str()),
                    None => None,
                };
                match resolved {
                    Some(u) => Some(
                        NavigationHint {
                            url: string_of(&chars_of(u.serialization())),
                            protocol: job.protocol,
                            add_to_history: true,
                        },
                    ),
                    None => {
                        let msg = failure_message(target.as_str());
                        show_message(&mut self.content, msg.as_str(), job.protocol);
                        None
                    },
                }
            },
            StatusAction::Failure(detail) => {
                let msg = failure_message(detail.as_str());
                show_message(&mut self.content, msg.as_str(), job.protocol);
                None
            },
            StatusAction::Certificate(c) => {
                show_message(&mut self.content, certificate_message(c), job.protocol);
                None
            },
            StatusAction::Unhandled => None,
        };
        assert(action_handled(before, *self, job, a, resp.content@, r));
        r
    }

    /// Submits the user's input to the pending request: the navigation to
    /// start is to the destination with the input as query, by the
    /// destination's scheme, into the history. `None` when nothing asked.
    pub fn submit_input(&mut self, user_input: &str) -> (r: Option<NavigationHint>)
        ensures
            final(self).input_request is None,
            old(self).input_request is None ==> r is None,
            old(self).input_request matches Some(req) ==> (r matches Some(h) && h.url@
                == req.destination@ + seq!['?'] + user_input@ && h.protocol == protocol_of_scheme(
                lower(scheme_part(req.destination@)),
            ) && h.add_to_history),
            final(self).history == old(self).history,
            final(self).job == old(self).job,
            final(self).current_url == old(self).current_url,
    {
        let req = match self.input_request.take() {
            Some(req) => req,
            None => return None,
        };
        let mut v = chars_of(req.destination.as_str());
        v.push('?');
        append(&mut v, &chars_of(user_input));
        let protocol = Protocol::from_str(req.destination.as_str());
        Some(NavigationHint { url: string_of(&v), protocol, add_to_history: true })
    }
}

/// What handling the outcome of the current fetch does.
pub open spec fn outcome_handled(
    before: Navigator,
    after: Navigator,
    job: NavigationJob,
    outcome: Result<ServerResponse, FetchError>,
    r: Option<NavigationHint>,
) -> bool {
    match outcome {
        Err(FetchError::Transport(m)) => {
            &&& r is None
            &&& after.content@ == content_shown(before.content@, m@, job.protocol)
            &&& after.history@ == before.history@
            &&& after.input_request == before.input_request
        },
        Err(FetchError::Response(_)) => {
            &&& r is None
            &&& after.content@ == content_shown(before.content@, bad_response_text(), job.protocol)
            &&& after.history@ == before.history@
            &&& after.input_request == before.input_request
        },
        Ok(resp) => exists|a: StatusAction|
            action_is(a, resp.status) && #[trigger] action_handled(
                before,
                after,
                job,
                a,
                resp.content@,
                r,
            ),
    }
}

/// What carrying out a status's action does.
pub open spec fn action_handled(
    before: Navigator,
    after: Navigator,
    job: NavigationJob,
    a: StatusAction,
    body: Seq<u8>,
    r: Option<NavigationHint>,
) -> bool {
    match a {
        StatusAction::Render => {
            &&& r is None
            &&& after.content@ == content_after(before.content@, body, job.plaintext, job.protocol)
            &&& after.history@ == before.history@
            &&& after.input_request == before.input_request
        },
        StatusAction::Prompt(p, sensitive) => {
            &&& r is None
            &&& after.content@ == before.content@
            &&& after.history@ == history_pop(before.history@)
            &&& after.input_request matches Some(req) && req.prompt@ == p@ && req.sensitive
                == sensitive && req.destination@ == before.current_url->Some_0@.serialization
        },
        StatusAction::Redirect(t) => {
            &&& after.history@ == before.history@
            &&& after.input_request == before.input_request
            &&& match before.current_url {
                Some(c) => match redirect_target(c@, t@) {
                    Some(u) => r matches Some(h) && h.url@ == u.serialization && h.protocol
                        == job.protocol && h.add_to_history && after.content@ == before.content@,
                    None => r is None && after.content@ == content_shown(
                        before.content@,
                        failure_text(t@),
                        job.protocol,
                    ),
                },
                None => r is None && after.content@ == content_shown(
                    before.content@,
                    failure_text(t@),
                    job.protocol,
                ),
            }
        },
        StatusAction::Failure(d) => {
            &&& r is None
            &&& after.content@ == content_shown(before.content@, failure_text(d@), job.protocol)
            &&& after.history@ == before.history@
            &&& after.input_request == before.input_request
        },
        StatusAction::Certificate(c) => {
            &&& r is None
            &&& after.content@ == content_shown(before.content@, certificate_text(c), job.protocol)
            &&& after.history@ == before.history@
            &&& after.input_request == before.input_request
        },
        StatusAction::Unhandled => {
            &&& r is None
            &&& after.content@ == before.content@
            &&& after.history@ == before.history@
            &&& after.input_request == before.input_request
        },
    }
}

} // verus!
