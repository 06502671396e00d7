use breeze::gopher::{Gopher, GopherLine, LineType};
use breeze::nex::{Nex, NexLine};
use breeze::plain::{Finger, Plaintext};
use breeze::protocol::Protocol;

#[test]
fn gopher_menu_line() {
    let l = GopherLine::from_str("1Floodgap Home\t/home\tgopher.floodgap.com\t70", false);
    assert_eq!(l.line_type, LineType::Submenu);
    assert_eq!(l.user_display_string, "Floodgap Home");
    assert_eq!(l.selector, "/home");
    assert_eq!(l.hostname, "gopher.floodgap.com");
    assert_eq!(l.port, 70);
    assert!(l.is_link);
    assert_eq!(l.link_url(), "gopher://gopher.floodgap.com/home");
    assert_eq!(l.link_protocol(), Protocol::Gopher(false));
}

#[test]
fn gopher_search_and_info_lines() {
    let s = GopherLine::from_str("7Search\t/find\texample.org\t7070", false);
    assert_eq!(s.line_type, LineType::Search);
    assert!(!s.is_link);
    assert_eq!(s.search_url("rust lang"), "gopher://example.org:7070/find?rust lang");
    let i = GopherLine::from_str("iWelcome\t\terror.host\t1", false);
    assert_eq!(i.line_type, LineType::Informational);
    assert!(!i.is_link);
    let t = GopherLine::from_str("0About\t/about.txt\th\t70", false);
    assert_eq!(t.link_protocol(), Protocol::Plaintext);
    assert_eq!(LineType::Text.icon(), '\u{1F5B9}');
    assert_eq!(LineType::Document.icon(), ' ');
}

#[test]
fn gopher_malformed_lines_do_not_fail() {
    let l = GopherLine::from_str("no tabs here", false);
    assert_eq!(l.line_type, LineType::Informational);
    assert_eq!(l.user_display_string, "");
    let l = GopherLine::from_str("1Menu\t/sel", false);
    assert_eq!(l.hostname, "");
    assert_eq!(l.port, 0);
    let l = GopherLine::from_str("1Menu\t/sel\th\t99999", false);
    assert_eq!(l.port, 0);
    let l = GopherLine::from_str("1Menu\t/sel\th\t+71", false);
    assert_eq!(l.port, 71);
}

#[test]
fn gopher_page_drops_terminator() {
    let mut g = Gopher::new();
    g.parse_content(b"iHello\t\tnull\t0\r\n1Sub\t/s\th\t70\r\n.\r\n", false);
    assert_eq!(g.lines.len(), 2);
    assert_eq!(g.lines[0].user_display_string, "Hello");
    let mut p = Gopher::new();
    p.parse_content(b"line one\nline two\n.\n", true);
    assert_eq!(p.lines.len(), 1);
    assert_eq!(p.lines[0].user_display_string, "line one\nline two");
}

#[test]
fn nex_links_and_text() {
    let mut n = Nex::new();
    n.parse_content(b"Welcome\n=> docs/ Documentation\nplain", false);
    assert_eq!(n.lines.len(), 3);
    assert!(!n.lines[0].is_link);
    assert!(n.lines[1].is_link);
    let (label, target) = n.lines[1].link_parts().unwrap();
    assert_eq!(label, "docs/");
    assert_eq!(target, "Documentation");
    assert!(n.lines[0].link_parts().is_none());
    let l = NexLine::from_str("=> only");
    assert_eq!(l.link_parts().unwrap(), ("only".to_string(), "only".to_string()));
    let mut p = Nex::new();
    p.parse_content(b"=> a b\nc", true);
    assert_eq!(p.lines.len(), 1);
    assert_eq!(p.lines[0].text, "=> a b\nc");
}

#[test]
fn finger_and_plaintext_keep_whole_body() {
    let mut f = Finger::new();
    f.parse_content(b"Login: alice\n\xffend", false);
    assert_eq!(f.current_page_contents, "Login: alice\n\u{FFFD}end");
    let mut p = Plaintext::new();
    p.parse_content(b"=> not a link", false);
    assert_eq!(p.current_page_contents, "=> not a link");
}
