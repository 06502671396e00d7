use breeze::location::Address;
use breeze::protocol::{build_request, get_protocol, Protocol};

fn url(s: &str) -> Address {
    Address::parse(s).expect("valid URL")
}

fn request(s: &str) -> (String, bool, String, u16) {
    let u = url(s);
    let p = Protocol::from_url(&u);
    let r = build_request(&u, p).expect("a request");
    (r.body, r.secure, r.host, r.port)
}

#[test]
fn schemes_classify() {
    assert_eq!(get_protocol("finger"), Protocol::Finger);
    assert_eq!(get_protocol("gemini"), Protocol::Gemini);
    assert_eq!(get_protocol("gopher"), Protocol::Gopher(false));
    assert_eq!(get_protocol("gophers"), Protocol::Gopher(true));
    assert_eq!(get_protocol("guppy"), Protocol::Guppy);
    assert_eq!(get_protocol("nex"), Protocol::Nex);
    assert_eq!(get_protocol("scorpion"), Protocol::Scorpion);
    assert_eq!(get_protocol("scroll"), Protocol::Scroll);
    assert_eq!(get_protocol("spartan"), Protocol::Spartan);
    assert_eq!(get_protocol("text"), Protocol::TextProtocol);
    assert_eq!(get_protocol("http"), Protocol::Unknown);
    assert_eq!(get_protocol("GEMINI"), Protocol::Gemini);
    assert_eq!(get_protocol("Gophers"), Protocol::Gopher(true));
    assert_eq!(get_protocol(""), Protocol::Unknown);
}

#[test]
fn from_str_reads_scheme_before_colon() {
    assert_eq!(Protocol::from_str("gemini://example.org/"), Protocol::Gemini);
    assert_eq!(Protocol::from_str("spartan://example.org/x?y"), Protocol::Spartan);
    assert_eq!(Protocol::from_str("nex"), Protocol::Nex);
    assert_eq!(Protocol::from_str("GEMINI"), Protocol::Gemini);
    assert_eq!(Protocol::from_str("gophers://h/1"), Protocol::Gopher(true));
    assert_eq!(Protocol::from_str("SpArTaN://h/"), Protocol::Spartan);
    assert_eq!(Protocol::from_str("https://example.org/"), Protocol::Unknown);
}

#[test]
fn from_url_lowercases_through_parser() {
    assert_eq!(Protocol::from_url(&url("GEMINI://example.org/")), Protocol::Gemini);
}

#[test]
fn default_ports() {
    assert_eq!(Protocol::Finger.default_port(), 79);
    assert_eq!(Protocol::Gemini.default_port(), 1965);
    assert_eq!(Protocol::Gopher(true).default_port(), 70);
    assert_eq!(Protocol::Guppy.default_port(), 6775);
    assert_eq!(Protocol::Nex.default_port(), 1900);
    assert_eq!(Protocol::Scorpion.default_port(), 1517);
    assert_eq!(Protocol::Scroll.default_port(), 5699);
    assert_eq!(Protocol::Spartan.default_port(), 300);
    assert_eq!(Protocol::TextProtocol.default_port(), 1961);
}

#[test]
fn finger_request_strips_leading_slash() {
    assert_eq!(request("finger://example.org/alice"), ("alice".to_string(), false, "example.org".to_string(), 79));
    assert_eq!(request("finger://example.org").0, "");
}

#[test]
fn gemini_request_is_full_url_over_tls() {
    assert_eq!(
        request("gemini://example.org/docs/index.gmi"),
        ("gemini://example.org/docs/index.gmi".to_string(), true, "example.org".to_string(), 1965)
    );
}

#[test]
fn gopher_request_is_selector_with_tab_query() {
    assert_eq!(request("gopher://example.org/7/search?rust"), ("/7/search\trust".to_string(), false, "example.org".to_string(), 70));
    assert_eq!(request("gopher://example.org").0, "/");
    assert_eq!(request("gophers://example.org/1/menu"), ("/1/menu".to_string(), true, "example.org".to_string(), 70));
}

#[test]
fn guppy_request_is_full_url() {
    assert_eq!(request("guppy://example.org/a"), ("guppy://example.org/a".to_string(), false, "example.org".to_string(), 6775));
}

#[test]
fn nex_request_is_path() {
    assert_eq!(request("nex://example.org/dir/"), ("/dir/".to_string(), false, "example.org".to_string(), 1900));
    assert_eq!(request("nex://example.org").0, "/");
}

#[test]
fn scorpion_request_is_r_and_url() {
    assert_eq!(request("scorpion://example.org/x"), ("R scorpion://example.org/x".to_string(), false, "example.org".to_string(), 1517));
}

#[test]
fn scroll_request_adds_language() {
    assert_eq!(request("scroll://example.org/"), ("scroll://example.org/ en".to_string(), true, "example.org".to_string(), 5699));
}

#[test]
fn spartan_request_carries_query_length() {
    assert_eq!(request("spartan://example.org/form?hello"), ("example.org /form 5\nhello".to_string(), false, "example.org".to_string(), 300));
    assert_eq!(request("spartan://example.org/page").0, "example.org /page 0");
    assert_eq!(request("spartan://example.org").0, "example.org / 0");
    let long = "a".repeat(123);
    assert_eq!(request(&format!("spartan://example.org/f?{}", long)).0, format!("example.org /f 123\n{}", long));
}

#[test]
fn text_request_is_full_url() {
    assert_eq!(request("text://example.org/"), ("text://example.org/".to_string(), false, "example.org".to_string(), 1961));
}

#[test]
fn explicit_port_wins() {
    assert_eq!(request("gemini://example.org:1966/").3, 1966);
    assert_eq!(request("spartan://example.org:3000/").3, 3000);
}

#[test]
fn no_request_for_unknown_or_plaintext() {
    let u = url("https://example.org/");
    assert!(build_request(&u, Protocol::Unknown).is_none());
    assert!(build_request(&u, Protocol::Plaintext).is_none());
}

#[test]
fn no_request_without_host() {
    let u = url("gemini:no-host");
    assert!(build_request(&u, Protocol::Gemini).is_none());
}
