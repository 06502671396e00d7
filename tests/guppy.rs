use breeze::guppy::GuppyTransfer;
use breeze::protocol::Protocol;
use breeze::status::{parse_server_response, ServerStatus};

#[test]
fn two_datagram_exchange_reassembles() {
    let mut t = GuppyTransfer::new();
    let ack = t.receive(b"1 text/gemini\r\n# Hello\n\0\0").unwrap();
    assert_eq!(ack, b"1\r\n".to_vec());
    let ack = t.receive(b"2\r\nwor\0ld\nagain\n").unwrap();
    assert_eq!(ack, b"2\r\n".to_vec());
    assert!(!t.is_done());
    assert!(t.receive(b"3\r\n").is_none());
    assert!(t.is_done());
    assert_eq!(t.data(), &b"text/gemini\n# Hello\nworld\nagain\n".to_vec());
    let r = parse_server_response(t.data(), Protocol::Guppy).unwrap();
    assert_eq!(r.content, b"# Hello\nworld\nagain\n".to_vec());
    assert!(matches!(r.status, ServerStatus::Success(ref m) if m == "text/gemini"));
}

#[test]
fn content_type_only_from_first_datagram() {
    let mut t = GuppyTransfer::new();
    t.receive(b"5 text/plain\nline\n");
    t.receive(b"6 other\nmore\n");
    assert_eq!(t.data(), &b"text/plain\nline\nmore\n".to_vec());
}

#[test]
fn single_line_datagram_ends_transfer() {
    let mut t = GuppyTransfer::new();
    assert!(t.receive(b"9 text/gemini\r\nno newline here\0\0\0").is_none());
    assert!(t.is_done());
    assert_eq!(t.data(), &b"text/gemini\n".to_vec());
}
