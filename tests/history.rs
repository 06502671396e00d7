use breeze::history::{
    add_entry, back, can_go_back, can_go_forward, forward, remove_entry, remove_latest_entry,
    History,
};
use breeze::hosts::HostCache;
use breeze::location::Address;
use breeze::protocol::Protocol;

fn url(s: &str) -> Address {
    Address::parse(s).unwrap()
}

fn push(h: &mut History, s: &str) {
    add_entry(h, url(s), Protocol::Gemini);
}

#[test]
fn push_keeps_cursor_in_bounds() {
    let mut h = History::new();
    for s in ["gemini://a/", "gemini://b/", "gemini://c/"] {
        push(&mut h, s);
        assert!(h.cursor() < h.len());
    }
    assert_eq!(h.len(), 3);
    assert_eq!(h.cursor(), 2);
}

#[test]
fn same_url_twice_does_not_grow() {
    let mut h = History::new();
    push(&mut h, "gemini://a/");
    push(&mut h, "gemini://a/");
    assert_eq!(h.len(), 1);
    assert_eq!(h.cursor(), 0);
}

#[test]
fn push_after_back_truncates_forward_entries() {
    let mut h = History::new();
    push(&mut h, "gemini://a/");
    push(&mut h, "gemini://b/");
    push(&mut h, "gemini://c/");
    let e = back(&mut h).unwrap();
    assert_eq!(e.url.serialization(), "gemini://b/");
    let e = back(&mut h).unwrap();
    assert_eq!(e.url.serialization(), "gemini://a/");
    push(&mut h, "gemini://d/");
    assert_eq!(h.len(), 2);
    assert_eq!(h.cursor(), 1);
    assert_eq!(h.current().unwrap().url.serialization(), "gemini://d/");
    assert!(!can_go_forward(&h));
}

#[test]
fn push_current_after_back_keeps_position() {
    let mut h = History::new();
    push(&mut h, "gemini://a/");
    push(&mut h, "gemini://b/");
    back(&mut h);
    push(&mut h, "gemini://a/");
    assert_eq!(h.len(), 1);
    assert_eq!(h.cursor(), 0);
}

#[test]
fn back_and_forward_at_edges() {
    let mut h = History::new();
    assert!(back(&mut h).is_none());
    assert!(forward(&mut h).is_none());
    push(&mut h, "gemini://a/");
    push(&mut h, "gemini://b/");
    assert!(can_go_back(&h));
    assert!(!can_go_forward(&h));
    assert!(forward(&mut h).is_none());
    assert_eq!(back(&mut h).unwrap().url.serialization(), "gemini://a/");
    assert!(back(&mut h).is_none());
    assert!(can_go_forward(&h));
    assert_eq!(forward(&mut h).unwrap().url.serialization(), "gemini://b/");
}

#[test]
fn remove_latest_pops_tail_and_fixes_cursor() {
    let mut h = History::new();
    assert!(remove_latest_entry(&mut h).is_none());
    push(&mut h, "gemini://a/");
    push(&mut h, "gemini://b/");
    let e = remove_latest_entry(&mut h).unwrap();
    assert_eq!(e.url.serialization(), "gemini://b/");
    assert_eq!(h.len(), 1);
    assert_eq!(h.cursor(), 0);
    remove_latest_entry(&mut h);
    assert_eq!(h.len(), 0);
    assert_eq!(h.cursor(), 0);
}

#[test]
fn remove_entry_keeps_current() {
    let mut h = History::new();
    push(&mut h, "gemini://a/");
    push(&mut h, "gemini://b/");
    push(&mut h, "gemini://c/");
    let e = remove_entry(&mut h, 0);
    assert_eq!(e.url.serialization(), "gemini://a/");
    assert_eq!(h.current().unwrap().url.serialization(), "gemini://c/");
    assert_eq!(h.cursor(), 1);
}

#[test]
fn host_cache_remembers_latest_answer() {
    let mut c = HostCache::new();
    assert_eq!(c.lookup("example.org"), None);
    c.record("example.org", true);
    c.record("bad.invalid", false);
    assert_eq!(c.lookup("example.org"), Some(true));
    assert_eq!(c.lookup("bad.invalid"), Some(false));
    c.record("example.org", false);
    assert_eq!(c.lookup("example.org"), Some(false));
    assert_eq!(c.lookup("other"), None);
}
