use breeze::protocol::Protocol;
use breeze::status::{
    parse_server_response, GeminiStatus, ResponseError, ScorpionStatus, ServerStatus,
    SpartanStatus, TextProtocolStatus,
};

fn gemini(raw: &[u8]) -> GeminiStatus {
    match parse_server_response(raw, Protocol::Gemini).expect("a response").status {
        ServerStatus::Gemini(g) => g,
        other => panic!("not a Gemini status: {:?}", other),
    }
}

#[test]
fn gemini_not_found() {
    match gemini(b"51 Not Found\r\n") {
        GeminiStatus::NotFound(m) => assert_eq!(m, "Not Found"),
        other => panic!("{:?}", other),
    }
}

#[test]
fn gemini_input_expected() {
    match gemini(b"10 Enter query\r\n") {
        GeminiStatus::InputExpected(m, sensitive) => {
            assert_eq!(m, "Enter query");
            assert!(!sensitive);
        }
        other => panic!("{:?}", other),
    }
    match gemini(b"11 Password\n") {
        GeminiStatus::InputExpected(m, sensitive) => {
            assert_eq!(m, "Password");
            assert!(sensitive);
        }
        other => panic!("{:?}", other),
    }
}

#[test]
fn gemini_temporary_redirect() {
    match gemini(b"30 /new/path\r\n") {
        GeminiStatus::TemporaryRedirect(m) => assert_eq!(m, "/new/path"),
        other => panic!("{:?}", other),
    }
}

#[test]
fn gemini_success_splits_body() {
    let r = parse_server_response(b"20 text/gemini\r\n# Title\nbody\n", Protocol::Gemini).unwrap();
    assert_eq!(r.content, b"# Title\nbody\n".to_vec());
    match r.status {
        ServerStatus::Gemini(GeminiStatus::Success(m)) => assert_eq!(m, "text/gemini"),
        other => panic!("{:?}", other),
    }
}

#[test]
fn gemini_certificate_codes() {
    assert!(matches!(gemini(b"60 need cert\n"), GeminiStatus::RequiresClientCertificate));
    assert!(matches!(gemini(b"61 \n"), GeminiStatus::CertificateNotAuthorized));
    assert!(matches!(gemini(b"62 x\n"), GeminiStatus::CertificateNotValid));
}

#[test]
fn scroll_uses_gemini_codes() {
    let r = parse_server_response(b"25 text/scroll\nhi", Protocol::Scroll).unwrap();
    assert!(matches!(r.status, ServerStatus::Gemini(GeminiStatus::Success(_))));
}

#[test]
fn unknown_code_is_malformed() {
    assert_eq!(parse_server_response(b"99 what\n", Protocol::Gemini).unwrap_err(), ResponseError::MalformedStatusLine);
    assert_eq!(parse_server_response(b"2 short\n", Protocol::Gemini).unwrap_err(), ResponseError::MalformedStatusLine);
    assert_eq!(parse_server_response(b"20 ok\n", Protocol::Spartan).unwrap_err(), ResponseError::MalformedStatusLine);
    assert_eq!(parse_server_response(b"21 ok\n", Protocol::TextProtocol).unwrap_err(), ResponseError::MalformedStatusLine);
    assert_eq!(parse_server_response(b"57 x\n", Protocol::Scorpion).unwrap_err(), ResponseError::MalformedStatusLine);
}

#[test]
fn status_without_space_is_malformed() {
    assert_eq!(parse_server_response(b"20\r\nbody", Protocol::Gemini).unwrap_err(), ResponseError::MalformedStatusLine);
    assert_eq!(parse_server_response(b"20\n", Protocol::Scorpion).unwrap_err(), ResponseError::MalformedStatusLine);
    assert_eq!(parse_server_response(b"2\n", Protocol::Spartan).unwrap_err(), ResponseError::MalformedStatusLine);
    assert_eq!(parse_server_response(b"40\n", Protocol::TextProtocol).unwrap_err(), ResponseError::MalformedStatusLine);
}

#[test]
fn missing_newline_is_malformed() {
    assert_eq!(parse_server_response(b"20 text/gemini", Protocol::Gemini).unwrap_err(), ResponseError::MalformedStatusLine);
    assert_eq!(parse_server_response(b"", Protocol::Spartan).unwrap_err(), ResponseError::MalformedStatusLine);
}

#[test]
fn spartan_codes() {
    let r = parse_server_response(b"2 text/gemini\r\nhello", Protocol::Spartan).unwrap();
    assert_eq!(r.content, b"hello".to_vec());
    assert!(matches!(r.status, ServerStatus::Spartan(SpartanStatus::Success(ref m)) if m == "text/gemini"));
    let r = parse_server_response(b"3 /elsewhere\r\n", Protocol::Spartan).unwrap();
    assert!(matches!(r.status, ServerStatus::Spartan(SpartanStatus::Redirect(ref m)) if m == "/elsewhere"));
    let r = parse_server_response(b"4 bad\n", Protocol::Spartan).unwrap();
    assert!(matches!(r.status, ServerStatus::Spartan(SpartanStatus::ClientError(ref m)) if m == "bad"));
    let r = parse_server_response(b"5 down\n", Protocol::Spartan).unwrap();
    assert!(matches!(r.status, ServerStatus::Spartan(SpartanStatus::ServerError(ref m)) if m == "down"));
}

#[test]
fn text_protocol_codes() {
    let r = parse_server_response(b"20 text/gemini\nx", Protocol::TextProtocol).unwrap();
    assert!(matches!(r.status, ServerStatus::TextProtocol(TextProtocolStatus::OK(ref m)) if m == "text/gemini"));
    let r = parse_server_response(b"30 text://b/\n", Protocol::TextProtocol).unwrap();
    assert!(matches!(r.status, ServerStatus::TextProtocol(TextProtocolStatus::Redirect(ref m)) if m == "text://b/"));
    let r = parse_server_response(b"40 nope\n", Protocol::TextProtocol).unwrap();
    assert!(matches!(r.status, ServerStatus::TextProtocol(TextProtocolStatus::NOK(ref m)) if m == "nope"));
}

#[test]
fn scorpion_codes() {
    let r = parse_server_response(b"20 ok\n\x00\x00\x00\x00\x00\x00", Protocol::Scorpion).unwrap();
    assert!(matches!(r.status, ServerStatus::Scorpion(ScorpionStatus::OK)));
    assert_eq!(r.content, vec![0u8; 6]);
    let r = parse_server_response(b"51 missing.txt\n", Protocol::Scorpion).unwrap();
    assert!(matches!(r.status, ServerStatus::Scorpion(ScorpionStatus::FileNotFound(ref m)) if m == "missing.txt"));
    let r = parse_server_response(b"00 \n", Protocol::Scorpion).unwrap();
    assert!(matches!(r.status, ServerStatus::Scorpion(ScorpionStatus::Interactive)));
    let r = parse_server_response(b"82 done\n", Protocol::Scorpion).unwrap();
    assert!(matches!(r.status, ServerStatus::Scorpion(ScorpionStatus::AcceptedOther)));
}

#[test]
fn guppy_header_is_content_type() {
    let r = parse_server_response(b"text/gemini\n# Hi\n", Protocol::Guppy).unwrap();
    assert_eq!(r.content, b"# Hi\n".to_vec());
    assert!(matches!(r.status, ServerStatus::Success(ref m) if m == "text/gemini"));
}

#[test]
fn other_protocols_pass_body_through() {
    let r = parse_server_response(b"Login: alice\nName: A\n", Protocol::Finger).unwrap();
    assert_eq!(r.content, b"Login: alice\nName: A\n".to_vec());
    assert!(matches!(r.status, ServerStatus::Success(ref m) if m == "text/plain"));
    let r = parse_server_response(b"", Protocol::Nex).unwrap();
    assert!(r.content.is_empty());
}

#[test]
fn invalid_utf8_meta_is_replaced() {
    match gemini(b"51 \xff\n") {
        GeminiStatus::NotFound(m) => assert_eq!(m, "\u{FFFD}"),
        other => panic!("{:?}", other),
    }
}
