//! The Gemtext parser, shared by Gemini, Spartan, Guppy and Scroll: a
//! line-prefix grammar with a preformatted mode toggled by fence lines.
use vstd::prelude::*;
use crate::text::{
    chars_of, drop_dots, eq_chars, find_space, first_space, has_prefix, join_line_vecs, join_lines,
    lemma_first_space, lines_of, lossy_string, slice, split_lines, starts_with, string_of, trim,
    trim_chars, utf8_lossy, views, without_dots,
};

verus! {

#[derive(Clone, Copy, Debug, PartialEq, Eq, Structural)]
pub enum LineType {
    Text,
    Link,
    Heading1,
    Heading2,
    Heading3,
    List,
    Quote,
    PreformatToggle,
    /// A Spartan input field: a link whose submission carries a query.
    Prompt,
}

/// The type of a line, by its prefix.
pub open spec fn line_type_of(s: Seq<char>) -> LineType {
    if has_prefix(s, seq!['=', '>']) {
        LineType::Link
    } else if has_prefix(s, seq!['#', '#', '#']) {
        LineType::Heading3
    } else if has_prefix(s, seq!['#', '#']) {
        LineType::Heading2
    } else if has_prefix(s, seq!['#']) {
        LineType::Heading1
    } else if has_prefix(s, seq!['>']) {
        LineType::Quote
    } else if has_prefix(s, seq!['`', '`', '`']) {
        LineType::PreformatToggle
    } else if has_prefix(s, seq!['*']) {
        LineType::List
    } else if has_prefix(s, seq!['=', ':']) {
        LineType::Prompt
    } else {
        LineType::Text
    }
}

impl LineType {
    /// The type of a line, by its prefix.
    pub fn from_str(s: &str) -> (r: LineType)
        ensures
            r == line_type_of(s@),
    {
        let v = chars_of(s);
        line_type(&v)
    }
}

fn line_type(s: &[char]) -> (r: LineType)
    ensures
        r == line_type_of(s@),
{
    let link = ['=', '>'];
    let h3 = ['#', '#', '#'];
    let h2 = ['#', '#'];
    let h1 = ['#'];
    let quote = ['>'];
    let fence = ['`', '`', '`'];
    let list = ['*'];
    let prompt = ['=', ':'];
    assert(link@ =~= seq!['=', '>']);
    assert(h3@ =~= seq!['#', '#', '#']);
    assert(h2@ =~= seq!['#', '#']);
    assert(h1@ =~= seq!['#']);
    assert(quote@ =~= seq!['>']);
    assert(fence@ =~= seq!['`', '`', '`']);
    assert(list@ =~= seq!['*']);
    assert(prompt@ =~= seq!['=', ':']);
    if starts_with(s, &link) {
        LineType::Link
    } else if starts_with(s, &h3) {
        LineType::Heading3
    } else if starts_with(s, &h2) {
        LineType::Heading2
    } else if starts_with(s, &h1) {
        LineType::Heading1
    } else if starts_with(s, &quote) {
        LineType::Quote
    } else if starts_with(s, &fence) {
        LineType::PreformatToggle
    } else if starts_with(s, &list) {
        LineType::List
    } else if starts_with(s, &prompt) {
        LineType::Prompt
    } else {
        LineType::Text
    }
}

/// One parsed line.
pub struct GemtextLine {
    pub line_type: LineType,
    /// The text shown: the label for links and prompts, the line otherwise.
    pub content: String,
    /// The target of a link or prompt.
    pub path: Option<String>,
    /// Whether the line stands inside a preformatted run.
    pub preformatted: bool,
}

pub struct GemtextLineView {
    pub line_type: LineType,
    pub content: Seq<char>,
    pub path: Option<Seq<char>>,
    pub preformatted: bool,
}

impl View for GemtextLine {
    type V = GemtextLineView;

    open spec fn view(&self) -> GemtextLineView {
        GemtextLineView {
            line_type: self.line_type,
            content: self.content@,
            path: crate::location::opt_view(self.path),
            preformatted: self.preformatted,
        }
    }
}

/// The label and target of a link or prompt line: after the two-character
/// marker and trimming, the target runs to the first whitespace and the
/// trimmed rest is the label; with no rest, the target is its own label.
pub open spec fn link_parts(s: Seq<char>) -> (Seq<char>, Seq<char>) {
    let c = trim(s.subrange(2, s.len() as int));
    let k = first_space(c);
    if 0 <= k < c.len() {
        (trim(c.subrange(k + 1, c.len() as int)), c.subrange(0, k))
    } else {
        (c, c)
    }
}

/// One line parsed in preformatted state `pre`: the record and the state
/// after it.
pub open spec fn gemtext_line(s: Seq<char>, pre: bool) -> (GemtextLineView, bool) {
    if s.len() == 0 {
        (GemtextLineView { line_type: LineType::Text, content: s, path: None, preformatted: pre }, pre)
    } else {
        let t = line_type_of(s);
        let pre2 = if t == LineType::PreformatToggle {
            !pre
        } else {
            pre
        };
        let (content, path) = if pre2 && t != LineType::PreformatToggle {
            (s, None)
        } else {
            match t {
                LineType::Link | LineType::Prompt => (link_parts(s).0, Some(link_parts(s).1)),
                LineType::PreformatToggle => (seq![], None),
                _ => (s, None),
            }
        };
        (GemtextLineView { line_type: t, content, path, preformatted: pre2 }, pre2)
    }
}

/// The records of a sequence of lines; lines holding only `.` mark the end
/// of a body and give none.
pub open spec fn gemtext_lines(lines: Seq<Seq<char>>, pre: bool) -> Seq<GemtextLineView>
    decreases lines.len(),
{
    if lines.len() == 0 {
        seq![]
    } else if lines[0] == seq!['.'] {
        gemtext_lines(lines.drop_first(), pre)
    } else {
        let (rec, pre2) = gemtext_line(lines[0], pre);
        seq![rec] + gemtext_lines(lines.drop_first(), pre2)
    }
}

/// The page a body gives: in plaintext mode one literal text record of all
/// its lines (but `.` lines); otherwise one record per line.
pub open spec fn gemtext_page(text: Seq<char>, plaintext: bool) -> Seq<GemtextLineView> {
    if plaintext {
        seq![
            GemtextLineView {
                line_type: LineType::Text,
                content: join_lines(without_dots(lines_of(text))),
                path: None,
                preformatted: false,
            },
        ]
    } else {
        gemtext_lines(lines_of(text), false)
    }
}

/// A fence line flips the preformatted state and is itself marked with the
/// new state; any other line leaves the state as it was, so a run never
/// reaches past its closing fence.
pub proof fn lemma_fence_toggles(s: Seq<char>, pre: bool)
    ensures
        s.len() > 0 && line_type_of(s) == LineType::PreformatToggle ==> gemtext_line(s, pre).1 == !pre
            && gemtext_line(s, pre).0.preformatted == !pre,
        !(s.len() > 0 && line_type_of(s) == LineType::PreformatToggle) ==> gemtext_line(s, pre).1
            == pre && gemtext_line(s, pre).0.preformatted == pre,
{
}

/// Inside a preformatted run a line is kept verbatim: no link target, its
/// whole text as content.
pub proof fn lemma_preformatted_verbatim(s: Seq<char>, pre: bool)
    requires
        pre,
        s.len() > 0,
        line_type_of(s) != LineType::PreformatToggle,
    ensures
        gemtext_line(s, pre).0.content == s,
        gemtext_line(s, pre).0.path is None,
{
}

fn parse_link(s: &[char]) -> (r: (Vec<char>, Vec<char>))
    requires
        s@.len() >= 2,
    ensures
        r.0@ == link_parts(s@).0,
        r.1@ == link_parts(s@).1,
{
    let rest = slice(s, 2, s.len());
    let c = trim_chars(&rest);
    match find_space(&c, 0) {
        Some(k) => {
            proof {
                lemma_first_space(c@, k as int);
            }
            let label = slice(&c, k + 1, c.len());
            (trim_chars(&label), slice(&c, 0, k))
        },
        None => {
            proof {
                lemma_first_space(c@, c@.len() as int);
            }
            let d = slice(&c, 0, c.len());
            proof {
                assert(d@ =~= c@);
            }
            (c, d)
        },
    }
}

fn parse_line(s: &Vec<char>, pre: bool) -> (r: (GemtextLine, bool))
    ensures
        r.0@ == gemtext_line(s@, pre).0,
        r.1 == gemtext_line(s@, pre).1,
{
    if s.len() == 0 {
        let line = GemtextLine {
            line_type: LineType::Text,
            content: string_of(s),
            path: None,
            preformatted: pre,
        };
        return (line, pre);
    }
    let t = line_type(s);
    let pre2 = if t == LineType::PreformatToggle {
        !pre
    } else {
        pre
    };
    let (content, path): (Vec<char>, Option<Vec<char>>) = if pre2 && t != LineType::PreformatToggle {
        (slice(s, 0, s.len()), None)
    } else {
        match t {
            LineType::Link | LineType::Prompt => {
                assert(s@.len() >= 2);
                let (label, target) = parse_link(s);
                (label, Some(target))
            },
            LineType::PreformatToggle => (Vec::new(), None),
            _ => (slice(s, 0, s.len()), None),
        }
    };
    let path_string = match path {
        Some(p) => Some(string_of(&p)),
        None => None,
    };
    let line = GemtextLine {
        line_type: t,
        content: string_of(&content),
        path: path_string,
        preformatted: pre2,
    };
    proof {
        assert(s@.subrange(0, s@.len() as int) =~= s@);
        assert(line@.content =~= gemtext_line(s@, pre).0.content);
    }
    (line, pre2)
}

/// The parsed lines of a Gemtext page.
pub struct Gemtext {
    pub lines: Vec<GemtextLine>,
}

pub open spec fn line_views(v: Seq<GemtextLine>) -> Seq<GemtextLineView> {
    v.map_values(|l: GemtextLine| l@)
}

impl View for Gemtext {
    type V = Seq<GemtextLineView>;

    open spec fn view(&self) -> Seq<GemtextLineView> {
        line_views(self.lines@)
    }
}

impl Gemtext {
    pub fn new() -> (r: Gemtext)
        ensures
            r@ == Seq::<GemtextLineView>::empty(),
    {
        let r = Gemtext { lines: Vec::new() };
        assert(r@ =~= Seq::<GemtextLineView>::empty());
        r
    }

    /// Replaces the page with the parse of a response body.
    pub fn parse_content(&mut self, response: &[u8], plaintext: bool)
        ensures
            final(self)@ == gemtext_page(utf8_lossy(response@), plaintext),
    {
        let text = lossy_string(response);
        self.parse_text(text.as_str(), plaintext);
    }

    /// Replaces the page with the parse of decoded text.
    pub fn parse_text(&mut self, text: &str, plaintext: bool)
        ensures
            final(self)@ == gemtext_page(text@, plaintext),
    {
        let chars = chars_of(text);
        let lines = split_lines(&chars);
        if plaintext {
            let kept = drop_dots(&lines);
            let joined = join_line_vecs(&kept);
            let line = GemtextLine {
                line_type: LineType::Text,
                content: string_of(&joined),
                path: None,
                preformatted: false,
            };
            let mut out: Vec<GemtextLine> = Vec::new();
            out.push(line);
            self.lines = out;
            assert(self@ =~= gemtext_page(text@, plaintext));
            return;
        }
        let mut out: Vec<GemtextLine> = Vec::new();
        let n = lines.len();
        let mut pre = false;
        let mut i: usize = 0;
        let dot = ['.'];
        assert(dot@ =~= seq!['.']);
        proof {
            assert(views(lines@).subrange(0, n as int) =~= views(lines@));
            assert(line_views(out@) + gemtext_lines(views(lines@), false) =~= gemtext_lines(
                views(lines@),
                false,
            ));
        }
        while i < n
            invariant
                n == lines@.len(),
                dot@ == seq!['.'],
                0 <= i <= n,
                line_views(out@) + gemtext_lines(views(lines@).subrange(i as int, n as int), pre)
                    == gemtext_lines(views(lines@), false),
            decreases n - i,
        {
            let ghost rest = views(lines@).subrange(i as int, n as int);
            proof {
                assert(rest.drop_first() =~= views(lines@).subrange(i + 1, n as int));
                assert(rest[0] == lines@[i as int]@);
            }
            if !eq_chars(lines[i].as_slice(), &dot) {
                let ghost before = out@;
                let (rec, next) = parse_line(&lines[i], pre);
                out.push(rec);
                proof {
                    assert(line_views(out@) =~= line_views(before) + seq![gemtext_line(rest[0], pre).0]);
                    assert(line_views(out@) + gemtext_lines(rest.drop_first(), next) =~= line_views(
                        before,
                    ) + gemtext_lines(rest, pre));
                }
                pre = next;
            }
            i = i + 1;
        }
        proof {
            assert(views(lines@).subrange(n as int, n as int) =~= Seq::<Seq<char>>::empty());
            assert(line_views(out@) + Seq::<GemtextLineView>::empty() =~= line_views(out@));
        }
        self.lines = out;
    }
}

} // verus!
