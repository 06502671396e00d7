use breeze::gemtext::LineType;
use breeze::history::back;
use breeze::location::Address;
use breeze::navigation::{
    follow_link, link_hint, resolve_redirect, scorpion_link, submit_prompt, FetchError,
    Navigator,
};
use breeze::protocol::Protocol;
use breeze::status::{parse_server_response, ResponseError};

fn url(s: &str) -> Address {
    Address::parse(s).unwrap()
}

#[test]
fn redirect_with_slash_replaces_only_path() {
    let cur = url("gemini://example.org:1966/old/page?q=1");
    let r = resolve_redirect(&cur, "/new/path").unwrap();
    assert_eq!(r.scheme(), "gemini");
    assert_eq!(r.host(), Some("example.org"));
    assert_eq!(r.port(), Some(1966));
    assert_eq!(r.path(), "/new/path");
    assert_eq!(r.query(), Some("q=1"));
    assert_eq!(r.serialization(), "gemini://example.org:1966/new/path?q=1");
}

#[test]
fn redirect_with_slash_keeps_origin_without_query() {
    let cur = url("gemini://example.org/a/b");
    let r = resolve_redirect(&cur, "/new/path").unwrap();
    assert_eq!(r.serialization(), "gemini://example.org/new/path");
    assert_eq!(r.query(), None);
}

#[test]
fn redirect_hint_carries_resolved_url() {
    let mut n = Navigator::new();
    let order = n.navigate_to("gemini://example.org/a/b", None, true).unwrap();
    let resp = parse_server_response(b"30 gemini://other.net/x\r\n", Protocol::Gemini);
    let hint = n.complete(order.generation, resp.map_err(FetchError::Response)).unwrap();
    assert_eq!(hint.url, "gemini://other.net/x");
    let order = n.navigate_to("gemini://example.org/a/b", None, true).unwrap();
    let resp = parse_server_response(b"30 c\r\n", Protocol::Gemini);
    let hint = n.complete(order.generation, resp.map_err(FetchError::Response)).unwrap();
    assert_eq!(hint.url, "gemini://example.org/a/c");
}

#[test]
fn absolute_redirect_replaces_url() {
    let cur = url("gemini://example.org/old");
    let r = resolve_redirect(&cur, "gemini://other.net/x").unwrap();
    assert_eq!(r.serialization(), "gemini://other.net/x");
    let r = resolve_redirect(&cur, "sibling").unwrap();
    assert_eq!(r.serialization(), "gemini://example.org/sibling");
}

#[test]
fn links_resolve_and_pick_protocol() {
    let cur = url("gemini://example.org/dir/");
    let h = follow_link(&cur, "notes.txt").unwrap();
    assert_eq!(h.url, "gemini://example.org/dir/notes.txt");
    assert_eq!(h.protocol, Protocol::Plaintext);
    assert!(h.add_to_history);
    let h = follow_link(&cur, "spartan://x.org/").unwrap();
    assert_eq!(h.protocol, Protocol::Spartan);
    let h = link_hint(&url("nex://n.org/a"), "a");
    assert_eq!(h.protocol, Protocol::Nex);
    let h = submit_prompt(&url("spartan://s.org/"), "/form", "hi there").unwrap();
    assert_eq!(h.url, "spartan://s.org/form?hi%20there");
    let h = submit_prompt(&url("spartan://s.org/dir/"), "form", "a=1&b").unwrap();
    assert_eq!(h.url, "spartan://s.org/dir/form?a=1&b");
    assert_eq!(h.protocol, Protocol::Spartan);
}

#[test]
fn scorpion_links() {
    let cur = url("scorpion://example.org/a/b");
    assert_eq!(scorpion_link(&cur, "gemini://x/y").unwrap(), "gemini://x/y");
    assert_eq!(scorpion_link(&cur, "c").unwrap(), "scorpion://example.org/a/c");
}

#[test]
fn navigate_builds_fetch_and_success_renders() {
    let mut n = Navigator::new();
    let order = n.navigate_to("gemini://example.org/", None, true).unwrap();
    assert_eq!(order.request.body, "gemini://example.org/");
    assert!(order.request.secure);
    assert_eq!(order.request.port, 1965);
    assert_eq!(order.protocol, Protocol::Gemini);
    assert_eq!(n.history.len(), 1);
    let resp = parse_server_response(b"20 text/gemini\r\n=> /foo.gmi Foo\n", Protocol::Gemini);
    let r = n.complete(order.generation, resp.map_err(FetchError::Response));
    assert!(r.is_none());
    assert!(n.job.is_none());
    assert_eq!(n.content.gemtext.lines[0].line_type, LineType::Link);
    assert_eq!(n.content.gemtext.lines[0].content, "Foo");
}

#[test]
fn plaintext_hint_and_txt_suffix() {
    let mut n = Navigator::new();
    n.navigate_to("gemini://example.org/a.txt", None, true).unwrap();
    assert!(n.job.as_ref().unwrap().plaintext);
    n.navigate_to("gemini://example.org/a", Some(Protocol::Plaintext), true).unwrap();
    assert!(n.job.as_ref().unwrap().plaintext);
    n.navigate_to("gemini://example.org/a", None, true).unwrap();
    assert!(!n.job.as_ref().unwrap().plaintext);
}

#[test]
fn failure_shows_message_with_detail() {
    let mut n = Navigator::new();
    let order = n.navigate_to("gemini://example.org/missing", None, true).unwrap();
    let resp = parse_server_response(b"51 Not Found\r\n", Protocol::Gemini);
    n.complete(order.generation, resp.map_err(FetchError::Response));
    assert_eq!(n.content.gemtext.lines.len(), 1);
    assert_eq!(
        n.content.gemtext.lines[0].content,
        "The requested resource could not be found.\n\nAdditional information:\n\nNot Found"
    );
}

#[test]
fn redirect_returns_next_navigation() {
    let mut n = Navigator::new();
    let order = n.navigate_to("gemini://example.org/old", None, true).unwrap();
    let resp = parse_server_response(b"31 /new\r\n", Protocol::Gemini);
    let hint = n.complete(order.generation, resp.map_err(FetchError::Response)).unwrap();
    assert_eq!(hint.url, "gemini://example.org/new");
    assert_eq!(hint.protocol, Protocol::Gemini);
    assert!(hint.add_to_history);
}

#[test]
fn input_request_retracts_history_and_submits() {
    let mut n = Navigator::new();
    n.navigate_to("gemini://example.org/", None, true).unwrap();
    let order = n.navigate_to("gemini://example.org/search", None, true).unwrap();
    assert_eq!(n.history.len(), 2);
    let resp = parse_server_response(b"11 Secret?\r\n", Protocol::Gemini);
    n.complete(order.generation, resp.map_err(FetchError::Response));
    assert_eq!(n.history.len(), 1);
    let req = n.input_request.as_ref().unwrap();
    assert_eq!(req.prompt, "Secret?");
    assert!(req.sensitive);
    assert_eq!(req.destination, "gemini://example.org/search");
    let hint = n.submit_input("abc").unwrap();
    assert_eq!(hint.url, "gemini://example.org/search?abc");
    assert_eq!(hint.protocol, Protocol::Gemini);
    assert!(n.input_request.is_none());
    assert!(n.submit_input("again").is_none());
}

#[test]
fn stale_outcome_is_ignored() {
    let mut n = Navigator::new();
    let first = n.navigate_to("gemini://example.org/1", None, true).unwrap();
    let second = n.navigate_to("gemini://example.org/2", None, true).unwrap();
    assert_ne!(first.generation, second.generation);
    let r = n.complete(first.generation, Err(FetchError::Transport("late".to_string())));
    assert!(r.is_none());
    assert!(n.job.is_some());
    assert_eq!(n.content.gemtext.lines.len(), 0);
}

#[test]
fn transport_error_is_shown_as_text() {
    let mut n = Navigator::new();
    let order = n.navigate_to("nex://example.org/", None, true).unwrap();
    n.complete(order.generation, Err(FetchError::Transport("connection refused".to_string())));
    assert_eq!(n.content.nex.lines.len(), 1);
    assert_eq!(n.content.nex.lines[0].text, "connection refused");
}

#[test]
fn malformed_status_is_shown_as_text() {
    let mut n = Navigator::new();
    let order = n.navigate_to("gemini://example.org/", None, true).unwrap();
    n.complete(order.generation, Err(FetchError::Response(ResponseError::MalformedStatusLine)));
    assert_eq!(n.content.gemtext.lines[0].content, "The server sent a response that could not be understood.");
}

#[test]
fn certificate_statuses_show_messages() {
    let mut n = Navigator::new();
    let order = n.navigate_to("gemini://example.org/", None, true).unwrap();
    let resp = parse_server_response(b"61 no\r\n", Protocol::Gemini);
    n.complete(order.generation, resp.map_err(FetchError::Response));
    assert_eq!(n.content.gemtext.lines[0].content, "Your client certificate is not authorized to access this resource");
}

#[test]
fn invalid_and_unknown_urls_fetch_nothing() {
    let mut n = Navigator::new();
    assert!(n.navigate_to("not a url", None, true).is_none());
    assert_eq!(n.content.plaintext.current_page_contents, "Invalid URL");
    assert_eq!(n.view_protocol, Protocol::Unknown);
    assert_eq!(n.history.len(), 0);
    assert!(n.navigate_to("https://example.org/", None, true).is_none());
    assert_eq!(n.history.len(), 1);
    assert!(n.job.is_none());
}

#[test]
fn back_navigation_does_not_push() {
    let mut n = Navigator::new();
    n.navigate_to("gemini://example.org/a", None, true);
    n.navigate_to("gemini://example.org/b", None, true);
    let e = back(&mut n.history).unwrap();
    n.navigate(Some(e.url), Some(e.protocol), false);
    assert_eq!(n.history.len(), 2);
    assert_eq!(n.current_url.as_ref().unwrap().serialization(), "gemini://example.org/a");
}

#[test]
fn scorpion_ok_renders_blocks() {
    let mut n = Navigator::new();
    let order = n.navigate_to("scorpion://example.org/", None, true).unwrap();
    assert_eq!(order.request.body, "R scorpion://example.org/");
    let resp = parse_server_response(b"20 ok\n\x00\x00\x00\x00\x00\x03abc", Protocol::Scorpion);
    n.complete(order.generation, resp.map_err(FetchError::Response));
    assert_eq!(n.content.scorpion.blocks[0].body_data, "abc");
}
