//! The Gopher menu parser: each line is a type character followed by
//! tab-separated fields (display text, selector, host, port).
use vstd::prelude::*;
use crate::protocol::Protocol;
use crate::text::{
    append, chars_of, decimal, drop_dots, fields_of, join_line_vecs, join_lines, lines_of,
    lossy_string, parse_u16, parse_u16_spec, push_decimal, slice, split_lines, split_on, string_of,
    utf8_lossy, views, without_dots,
};

verus! {

#[derive(Clone, Copy, Debug, PartialEq, Eq, Structural)]
pub enum LineType {
    Text,
    Submenu,
    CCSONameserver,
    Error,
    BinHexFile,
    DOSFile,
    UUencodedFile,
    Search,
    Telnet,
    BinaryFile,
    Mirror,
    GIFFile,
    ImageFile,
    Telnet3270,
    BitmapImage,
    MovieFile,
    SoundFile,
    Document,
    HTML,
    Informational,
    PNGFile,
    RTFFile,
    PDFFile,
    XMLFile,
    Unknown,
}

/// The item type that a one-character type field names.
pub open spec fn type_of_char(c: char) -> LineType {
    if c == '0' {
        LineType::Text
    } else if c == '1' {
        LineType::Submenu
    } else if c == '2' {
        LineType::CCSONameserver
    } else if c == '3' {
        LineType::Error
    } else if c == '4' {
        LineType::BinHexFile
    } else if c == '5' {
        LineType::DOSFile
    } else if c == '6' {
        LineType::UUencodedFile
    } else if c == '7' {
        LineType::Search
    } else if c == '8' {
        LineType::Telnet
    } else if c == '9' {
        LineType::BinaryFile
    } else if c == '+' {
        LineType::Mirror
    } else if c == 'g' {
        LineType::GIFFile
    } else if c == 'I' {
        LineType::ImageFile
    } else if c == 'T' {
        LineType::Telnet3270
    } else if c == ':' {
        LineType::BitmapImage
    } else if c == ';' {
        LineType::MovieFile
    } else if c == '<' || c == 's' {
        LineType::SoundFile
    } else if c == 'd' {
        LineType::Document
    } else if c == 'h' {
        LineType::HTML
    } else if c == 'i' {
        LineType::Informational
    } else if c == 'p' {
        LineType::PNGFile
    } else if c == 'r' {
        LineType::RTFFile
    } else if c == 't' {
        LineType::PDFFile
    } else if c == 'x' {
        LineType::XMLFile
    } else {
        LineType::Unknown
    }
}

/// The item type a type field names; only single characters name one.
pub open spec fn type_of_field(s: Seq<char>) -> LineType {
    if s.len() == 1 {
        type_of_char(s[0])
    } else {
        LineType::Unknown
    }
}

/// The icon shown beside an item.
pub open spec fn icon_of(t: LineType) -> char {
    match t {
        LineType::Text => '\u{1F5B9}',
        LineType::Submenu => '\u{1F5C1}',
        LineType::CCSONameserver => '\u{1F4DE}',
        LineType::Error => '\u{26A0}',
        LineType::Search => '\u{1F50D}',
        LineType::HTML => '\u{1F310}',
        _ => ' ',
    }
}

fn type_of(c: char) -> (r: LineType)
    ensures
        r == type_of_char(c),
{
    match c {
        '0' => LineType::Text,
        '1' => LineType::Submenu,
        '2' => LineType::CCSONameserver,
        '3' => LineType::Error,
        '4' => LineType::BinHexFile,
        '5' => LineType::DOSFile,
        '6' => LineType::UUencodedFile,
        '7' => LineType::Search,
        '8' => LineType::Telnet,
        '9' => LineType::BinaryFile,
        '+' => LineType::Mirror,
        'g' => LineType::GIFFile,
        'I' => LineType::ImageFile,
        'T' => LineType::Telnet3270,
        ':' => LineType::BitmapImage,
        ';' => LineType::MovieFile,
        '<' => LineType::SoundFile,
        'd' => LineType::Document,
        'h' => LineType::HTML,
        'i' => LineType::Informational,
        'p' => LineType::PNGFile,
        'r' => LineType::RTFFile,
        's' => LineType::SoundFile,
        't' => LineType::PDFFile,
        'x' => LineType::XMLFile,
        _ => LineType::Unknown,
    }
}

impl LineType {
    /// The item type a type field names.
    pub fn from_str(s: &str) -> (r: LineType)
        ensures
            r == type_of_field(s@),
    {
        let v = chars_of(s);
        if v.len() == 1 {
            type_of(v[0])
        } else {
            LineType::Unknown
        }
    }

    /// The icon shown beside an item of this type.
    pub fn icon(&self) -> (r: char)
        ensures
            r == icon_of(*self),
    {
        match self {
            LineType::Text => '\u{1F5B9}',
            LineType::Submenu => '\u{1F5C1}',
            LineType::CCSONameserver => '\u{1F4DE}',
            LineType::Error => '\u{26A0}',
            LineType::Search => '\u{1F50D}',
            LineType::HTML => '\u{1F310}',
            _ => ' ',
        }
    }
}

/// One menu line.
pub struct GopherLine {
    pub line_type: LineType,
    pub user_display_string: String,
    pub selector: String,
    pub hostname: String,
    pub port: u16,
    pub is_link: bool,
}

pub struct GopherLineView {
    pub line_type: LineType,
    pub user_display_string: Seq<char>,
    pub selector: Seq<char>,
    pub hostname: Seq<char>,
    pub port: u16,
    pub is_link: bool,
}

impl View for GopherLine {
    type V = GopherLineView;

    open spec fn view(&self) -> GopherLineView {
        GopherLineView {
            line_type: self.line_type,
            user_display_string: self.user_display_string@,
            selector: self.selector@,
            hostname: self.hostname@,
            port: self.port,
            is_link: self.is_link,
        }
    }
}

/// An informational line showing `s`.
pub open spec fn info_line(s: Seq<char>) -> GopherLineView {
    GopherLineView {
        line_type: LineType::Informational,
        user_display_string: s,
        selector: seq![],
        hostname: seq![],
        port: 0,
        is_link: false,
    }
}

/// The field at `i`, empty when the line has fewer fields.
pub open spec fn field(f: Seq<Seq<char>>, i: int) -> Seq<char> {
    if i < f.len() {
        f[i]
    } else {
        seq![]
    }
}

/// The record of one line. In plaintext mode the line is informational
/// text. Otherwise its first character (when it is a single-byte one) is the
/// type, and the rest splits at tabs; a line without a tab is a blank
/// informational line. Missing host and port fields are empty and 0, and so
/// is a port that is not a 16-bit number. Informational (`i`) and search
/// (`7`) lines are not links.
pub open spec fn gopher_line(s: Seq<char>, plaintext: bool) -> GopherLineView {
    if plaintext {
        info_line(s)
    } else {
        let (t, content) = if s.len() >= 1 && (s[0] as u32) < 0x80 {
            (seq![s[0]], s.drop_first())
        } else {
            (seq!['i'], s)
        };
        let f = fields_of(content, '\t');
        if f.len() == 1 {
            info_line(seq![])
        } else {
            GopherLineView {
                line_type: type_of_field(t),
                user_display_string: f[0],
                selector: f[1],
                hostname: field(f, 2),
                port: match parse_u16_spec(field(f, 3)) {
                    Some(p) => p,
                    None => 0,
                },
                is_link: t != seq!['i'] && t != seq!['7'],
            }
        }
    }
}

/// The page a body gives; lines holding only `.` end a menu and give no
/// record.
pub open spec fn gopher_page(text: Seq<char>, plaintext: bool) -> Seq<GopherLineView> {
    if plaintext {
        seq![gopher_line(join_lines(without_dots(lines_of(text))), true)]
    } else {
        without_dots(lines_of(text)).map_values(|l: Seq<char>| gopher_line(l, false))
    }
}

/// The URL an item leads to: the port is written unless it is 70, and a
/// search query follows a `?`.
pub open spec fn gopher_url(l: GopherLineView, query: Option<Seq<char>>) -> Seq<char> {
    seq!['g', 'o', 'p', 'h', 'e', 'r', ':', '/', '/'] + l.hostname + (if l.port != 70 {
        seq![':'] + decimal(l.port as nat)
    } else {
        seq![]
    }) + l.selector + match query {
        Some(q) => seq!['?'] + q,
        None => seq![],
    }
}

fn make_line(s: &[char], plaintext: bool) -> (r: GopherLine)
    ensures
        r@ == gopher_line(s@, plaintext),
{
    if plaintext {
        return GopherLine {
            line_type: LineType::Informational,
            user_display_string: string_of(s),
            selector: String::new(),
            hostname: String::new(),
            port: 0,
            is_link: false,
        };
    }
    let (t, content): (char, Vec<char>) = if s.len() >= 1 && (s[0] as u32) < 0x80 {
        (s[0], slice(s, 1, s.len()))
    } else {
        ('i', slice(s, 0, s.len()))
    };
    proof {
        assert(s@.subrange(0, s@.len() as int) =~= s@);
        if s@.len() >= 1 && (s@[0] as u32) < 0x80 {
            assert(s@.subrange(1, s@.len() as int) =~= s@.drop_first());
        }
    }
    let f = split_on(&content, '\t');
    if f.len() == 1 {
        return GopherLine {
            line_type: LineType::Informational,
            user_display_string: String::new(),
            selector: String::new(),
            hostname: String::new(),
            port: 0,
            is_link: false,
        };
    }
    proof {
        assert(views(f@)[0] == f@[0]@);
        assert(views(f@)[1] == f@[1]@);
    }
    let hostname = if f.len() > 2 {
        assert(views(f@)[2] == f@[2]@);
        string_of(f[2].as_slice())
    } else {
        String::new()
    };
    let port = if f.len() > 3 {
        assert(views(f@)[3] == f@[3]@);
        match parse_u16(f[3].as_slice()) {
            Some(p) => p,
            None => 0,
        }
    } else {
        proof {
            assert(parse_u16_spec(Seq::<char>::empty()) is None);
        }
        0
    };
    let r = GopherLine {
        line_type: type_of(t),
        user_display_string: string_of(f[0].as_slice()),
        selector: string_of(f[1].as_slice()),
        hostname,
        port,
        is_link: t != 'i' && t != '7',
    };
    proof {
        let ts = if s@.len() >= 1 && (s@[0] as u32) < 0x80 { seq![s@[0]] } else { seq!['i'] };
        assert(ts[0] == t);
        assert(ts.len() == 1);
        assert((ts != seq!['i']) == (t != 'i'));
        assert((ts != seq!['7']) == (t != '7'));
        assert(r@ =~= gopher_line(s@, plaintext));
    }
    r
}

impl GopherLine {
    /// The record of one line.
    pub fn from_str(s: &str, plaintext: bool) -> (r: GopherLine)
        ensures
            r@ == gopher_line(s@, plaintext),
    {
        let v = chars_of(s);
        make_line(&v, plaintext)
    }

    fn url_with(&self, query: Option<&str>) -> (r: String)
        ensures
            r@ == gopher_url(self@, match query {
                Some(q) => Some(q@),
                None => None,
            }),
    {
        let mut v: Vec<char> = Vec::new();
        let prefix = ['g', 'o', 'p', 'h', 'e', 'r', ':', '/', '/'];
        append(&mut v, &prefix);
        append(&mut v, &chars_of(self.hostname.as_str()));
        if self.port != 70 {
            v.push(':');
            push_decimal(&mut v, self.port as u64);
        }
        append(&mut v, &chars_of(self.selector.as_str()));
        match query {
            Some(q) => {
                v.push('?');
                append(&mut v, &chars_of(q));
            },
            None => {},
        }
        proof {
            assert(prefix@ =~= seq!['g', 'o', 'p', 'h', 'e', 'r', ':', '/', '/']);
            assert(v@ =~= gopher_url(self@, match query {
                Some(q) => Some(q@),
                None => None,
            }));
        }
        string_of(&v)
    }

    /// The URL this item leads to.
    pub fn link_url(&self) -> (r: String)
        ensures
            r@ == gopher_url(self@, None),
    {
        self.url_with(None)
    }

    /// The URL a search item leads to with the query the user entered.
    pub fn search_url(&self, query: &str) -> (r: String)
        ensures
            r@ == gopher_url(self@, Some(query@)),
    {
        self.url_with(Some(query))
    }

    /// How a followed item is shown: text files as plaintext, everything
    /// else as a menu.
    pub fn link_protocol(&self) -> (r: Protocol)
        ensures
            r == (if self.line_type == LineType::Text {
                Protocol::Plaintext
            } else {
                Protocol::Gopher(false)
            }),
    {
        if self.line_type == LineType::Text {
            Protocol::Plaintext
        } else {
            Protocol::Gopher(false)
        }
    }
}

/// A parsed Gopher menu.
pub struct Gopher {
    pub lines: Vec<GopherLine>,
}

impl View for Gopher {
    type V = Seq<GopherLineView>;

    open spec fn view(&self) -> Seq<GopherLineView> {
        self.lines@.map_values(|l: GopherLine| l@)
    }
}

impl Gopher {
    pub fn new() -> (r: Gopher)
        ensures
            r@ == Seq::<GopherLineView>::empty(),
    {
        let r = Gopher { lines: Vec::new() };
        assert(r@ =~= Seq::<GopherLineView>::empty());
        r
    }

    /// Replaces the page with the parse of a response body.
    pub fn parse_content(&mut self, response: &[u8], plaintext: bool)
        ensures
            final(self)@ == gopher_page(utf8_lossy(response@), plaintext),
    {
        let text = lossy_string(response);
        let chars = chars_of(text.as_str());
        let lines = split_lines(&chars);
        let kept = drop_dots(&lines);
        let mut out: Vec<GopherLine> = Vec::new();
        if plaintext {
            let joined = join_line_vecs(&kept);
            out.push(make_line(&joined, true));
            self.lines = out;
            assert(self@ =~= gopher_page(utf8_lossy(response@), plaintext));
            return;
        }
        let mut i: usize = 0;
        while i < kept.len()
            invariant
                0 <= i <= kept@.len(),
                views(kept@) == without_dots(lines_of(chars@)),
                out@.len() == i,
                forall|j: int| 0 <= j < i ==> (#[trigger] out@[j])@ == gopher_line(kept@[j]@, false),
            decreases kept@.len() - i,
        {
            out.push(make_line(kept[i].as_slice(), false));
            i = i + 1;
        }
        self.lines = out;
        proof {
            assert(self@ =~= gopher_page(utf8_lossy(response@), plaintext));
        }
    }
}

} // verus!
