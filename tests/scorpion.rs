use breeze::scorpion::{parse_body_data, BlockType, CharacterEncoding, Scorpion};

fn parse(b: &[u8]) -> Scorpion {
    let mut s = Scorpion::new();
    s.parse_content(b, false);
    s
}

#[test]
fn minimal_paragraph_block() {
    let s = parse(&[0x00, 0x00, 0x00, 0x00, 0x00, 0x03, b'a', b'b', b'c']);
    assert_eq!(s.blocks.len(), 1);
    assert_eq!(s.blocks[0].block_type, BlockType::Paragraph);
    assert_eq!(s.blocks[0].body_data, "abc");
    assert_eq!(s.blocks[0].attribute_data, "");
    assert!(!s.truncated);
}

#[test]
fn short_stream_gives_no_blocks() {
    for n in 0..6 {
        let s = parse(&[0u8; 5][..n]);
        assert_eq!(s.blocks.len(), 0);
        assert_eq!(s.truncated, n > 0);
    }
}

#[test]
fn six_byte_block_is_parsed() {
    let s = parse(&[0x01, 0, 0, 0, 0, 0]);
    assert_eq!(s.blocks.len(), 1);
    assert_eq!(s.blocks[0].block_type, BlockType::Heading1);
    assert_eq!(s.blocks[0].body_data, "");
}

#[test]
fn hyperlink_with_attribute_then_second_block() {
    let mut b = vec![0x08, 0x00, 0x04];
    b.extend_from_slice(b"/x.t");
    b.extend_from_slice(&[0x00, 0x00, 0x04]);
    b.extend_from_slice(b"link");
    b.extend_from_slice(&[0x03, 0x00, 0x00, 0x00, 0x00, 0x02, b'h', b'i']);
    let s = parse(&b);
    assert_eq!(s.blocks.len(), 2);
    assert_eq!(s.blocks[0].block_type, BlockType::Hyperlink);
    assert_eq!(s.blocks[0].attribute_data, "/x.t");
    assert_eq!(s.blocks[0].body_data, "link");
    assert_eq!(s.blocks[1].block_type, BlockType::Heading3);
    assert_eq!(s.blocks[1].body_data, "hi");
}

#[test]
fn block_longer_than_stream_is_truncated() {
    let s = parse(&[0x00, 0x00, 0x00, 0x00, 0x00, 0x09, b'a']);
    assert_eq!(s.blocks.len(), 0);
    assert!(s.truncated);
    let s = parse(&[0x00, 0x00, 0x00, 0x00, 0x00, 0x01, b'a', 0x00, 0x00]);
    assert_eq!(s.blocks.len(), 1);
    assert!(s.truncated);
}

#[test]
fn unknown_type_nibble_is_paragraph() {
    let s = parse(&[0x07, 0, 0, 0, 0, 1, b'z']);
    assert_eq!(s.blocks[0].block_type, BlockType::Paragraph);
    assert_eq!(BlockType::from_nibble(0x0e), BlockType::Paragraph);
    assert_eq!(BlockType::from_nibble(0x0d), BlockType::Preformatted);
    assert_eq!(CharacterEncoding::from_bits(0x10), CharacterEncoding::PC);
    assert_eq!(CharacterEncoding::from_bits(0x30), CharacterEncoding::TRON8);
}

#[test]
fn format_codes_are_dropped() {
    let body = [b'a', 0x12, b'b', 0x0a, b'c', 0x1b];
    let t: String = parse_body_data(CharacterEncoding::TRON8, &body).into_iter().collect();
    assert_eq!(t, "abc");
}

#[test]
fn tron_bytes_are_latin1() {
    let t: String = parse_body_data(CharacterEncoding::TRON8, &[0xe9]).into_iter().collect();
    assert_eq!(t, "\u{e9}");
}

#[test]
fn pc_encoding_uses_code_page_437() {
    let t: String = parse_body_data(CharacterEncoding::PC, &[b'A', 0x80, 0x10, 0x41]).into_iter().collect();
    assert_eq!(t, "A\u{c7}\u{263a}");
    let t: String = parse_body_data(CharacterEncoding::PC, &[b'x', 0x10]).into_iter().collect();
    assert_eq!(t, "x");
    let t: String = parse_body_data(CharacterEncoding::TRON8, &[0x10, b'A']).into_iter().collect();
    assert_eq!(t, "A");
}

#[test]
fn pc_block_in_stream() {
    let s = parse(&[0x10, 0x00, 0x00, 0x00, 0x00, 0x02, 0x10, 0x43]);
    assert_eq!(s.blocks[0].body_data, "\u{2665}");
}

#[test]
fn plaintext_is_one_paragraph() {
    let mut s = Scorpion::new();
    s.parse_content(b"just text", true);
    assert_eq!(s.blocks.len(), 1);
    assert!(s.blocks[0].plaintext);
    assert_eq!(s.blocks[0].block_type, BlockType::Paragraph);
    assert_eq!(s.blocks[0].body_data, "just text");
}
