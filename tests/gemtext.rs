use breeze::gemtext::{Gemtext, LineType};

fn parse(text: &str, plaintext: bool) -> Gemtext {
    let mut g = Gemtext::new();
    g.parse_content(text.as_bytes(), plaintext);
    g
}

#[test]
fn link_with_label() {
    let g = parse("=> /foo.gmi Foo", false);
    assert_eq!(g.lines.len(), 1);
    assert_eq!(g.lines[0].line_type, LineType::Link);
    assert_eq!(g.lines[0].path.as_deref(), Some("/foo.gmi"));
    assert_eq!(g.lines[0].content, "Foo");
}

#[test]
fn link_without_label_uses_target() {
    let g = parse("=>   gemini://example.org/  ", false);
    assert_eq!(g.lines[0].path.as_deref(), Some("gemini://example.org/"));
    assert_eq!(g.lines[0].content, "gemini://example.org/");
}

#[test]
fn link_label_is_trimmed() {
    let g = parse("=> /a\t  Label words  ", false);
    assert_eq!(g.lines[0].path.as_deref(), Some("/a"));
    assert_eq!(g.lines[0].content, "Label words");
}

#[test]
fn preformatted_run_does_not_leak() {
    let g = parse("before\n```\n=> /not-a-link x\n# not a heading\n```\nafter\n=> /real y", false);
    let kinds: Vec<(LineType, bool)> = g.lines.iter().map(|l| (l.line_type, l.preformatted)).collect();
    assert_eq!(
        kinds,
        vec![
            (LineType::Text, false),
            (LineType::PreformatToggle, true),
            (LineType::Link, true),
            (LineType::Heading1, true),
            (LineType::PreformatToggle, false),
            (LineType::Text, false),
            (LineType::Link, false),
        ]
    );
    assert_eq!(g.lines[2].content, "=> /not-a-link x");
    assert_eq!(g.lines[2].path, None);
    assert_eq!(g.lines[1].content, "");
    assert_eq!(g.lines[6].path.as_deref(), Some("/real"));
}

#[test]
fn line_types_by_prefix() {
    let g = parse("# H1\n## H2\n### H3\n> quote\n* item\n=: /search Ask\nplain", false);
    let kinds: Vec<LineType> = g.lines.iter().map(|l| l.line_type).collect();
    assert_eq!(
        kinds,
        vec![
            LineType::Heading1,
            LineType::Heading2,
            LineType::Heading3,
            LineType::Quote,
            LineType::List,
            LineType::Prompt,
            LineType::Text,
        ]
    );
    assert_eq!(g.lines[0].content, "# H1");
    assert_eq!(g.lines[5].path.as_deref(), Some("/search"));
    assert_eq!(g.lines[5].content, "Ask");
    assert_eq!(LineType::from_str("=>x"), LineType::Link);
    assert_eq!(LineType::from_str("``"), LineType::Text);
}

#[test]
fn dot_lines_and_crlf() {
    let g = parse("one\r\n.\r\ntwo\r\n", false);
    assert_eq!(g.lines.len(), 2);
    assert_eq!(g.lines[0].content, "one");
    assert_eq!(g.lines[1].content, "two");
}

#[test]
fn empty_lines_are_text() {
    let g = parse("a\n\nb", false);
    assert_eq!(g.lines.len(), 3);
    assert_eq!(g.lines[1].line_type, LineType::Text);
    assert_eq!(g.lines[1].content, "");
}

#[test]
fn plaintext_is_one_block() {
    let g = parse("=> /x y\r\n# h\n.\nend\n", true);
    assert_eq!(g.lines.len(), 1);
    assert_eq!(g.lines[0].line_type, LineType::Text);
    assert_eq!(g.lines[0].content, "=> /x y\n# h\nend");
    assert_eq!(g.lines[0].path, None);
}

#[test]
fn empty_body_gives_no_lines() {
    assert_eq!(parse("", false).lines.len(), 0);
}

#[test]
fn reparse_replaces_page_and_resets_preformat() {
    let mut g = Gemtext::new();
    g.parse_content(b"```\nopen", false);
    assert!(g.lines[1].preformatted);
    g.parse_content(b"fresh", false);
    assert_eq!(g.lines.len(), 1);
    assert!(!g.lines[0].preformatted);
}

#[test]
fn parse_text_matches_parse_content() {
    let mut a = Gemtext::new();
    a.parse_text("=> /foo.gmi Foo", false);
    assert_eq!(a.lines[0].content, "Foo");
}
