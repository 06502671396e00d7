//! The Nex parser: lines beginning with `=> ` are links, all others are
//! literal text.
use vstd::prelude::*;
use crate::text::{
    chars_of, has_prefix, lines_of, lossy_string, slice, split_lines, starts_with, string_of,
    utf8_lossy, views,
};

verus! {

pub struct NexLine {
    pub text: String,
    pub is_link: bool,
}

pub struct NexLineView {
    pub text: Seq<char>,
    pub is_link: bool,
}

impl View for NexLine {
    type V = NexLineView;

    open spec fn view(&self) -> NexLineView {
        NexLineView { text: self.text@, is_link: self.is_link }
    }
}

pub open spec fn link_marker() -> Seq<char> {
    seq!['=', '>', ' ']
}

/// The record of one line.
pub open spec fn nex_line(s: Seq<char>) -> NexLineView {
    NexLineView { text: s, is_link: has_prefix(s, link_marker()) }
}

/// The label and target of a link line: what follows the marker, split at
/// its first space; with no space, the target is its own label.
pub open spec fn nex_link_parts(s: Seq<char>) -> (Seq<char>, Seq<char>) {
    let rest = s.subrange(3, s.len() as int);
    let k = crate::text::next_char(rest, ' ', 0);
    if 0 <= k < rest.len() {
        (rest.subrange(0, k), rest.subrange(k + 1, rest.len() as int))
    } else {
        (rest, rest)
    }
}

/// The page a body gives: in plaintext mode one record of the whole text;
/// otherwise one per line.
pub open spec fn nex_page(text: Seq<char>, plaintext: bool) -> Seq<NexLineView> {
    if plaintext {
        seq![nex_line(text)]
    } else {
        lines_of(text).map_values(|l: Seq<char>| nex_line(l))
    }
}

fn marker() -> (r: [char; 3])
    ensures
        r@ == link_marker(),
{
    let m = ['=', '>', ' '];
    assert(m@ =~= link_marker());
    m
}

fn make_line(s: &[char]) -> (r: NexLine)
    ensures
        r@ == nex_line(s@),
{
    let m = marker();
    NexLine { text: string_of(s), is_link: starts_with(s, &m) }
}

impl NexLine {
    /// The record of one line.
    pub fn from_str(s: &str) -> (r: NexLine)
        ensures
            r@ == nex_line(s@),
    {
        let v = chars_of(s);
        make_line(&v)
    }

    /// The label and target of a link line; `None` for a text line.
    pub fn link_parts(&self) -> (r: Option<(String, String)>)
        ensures
            !self.is_link ==> r is None,
            self.is_link && has_prefix(self.text@, link_marker()) ==> (r matches Some(p) && p.0@
                == nex_link_parts(self.text@).0 && p.1@ == nex_link_parts(self.text@).1),
    {
        if !self.is_link {
            return None;
        }
        let t = chars_of(self.text.as_str());
        let m = marker();
        if !starts_with(&t, &m) {
            return None;
        }
        let rest = slice(&t, 3, t.len());
        let mut k: usize = 0;
        while k < rest.len() && rest[k] != ' '
            invariant
                0 <= k <= rest@.len(),
                forall|j: int| 0 <= j < k ==> rest@[j] != ' ',
            decreases rest@.len() - k,
        {
            k = k + 1;
        }
        proof {
            lemma_next_space(rest@, 0, k as int);
        }
        if k < rest.len() {
            let label = slice(&rest, 0, k);
            let target = slice(&rest, k + 1, rest.len());
            Some((string_of(&label), string_of(&target)))
        } else {
            Some((string_of(&rest), string_of(&rest)))
        }
    }
}

proof fn lemma_next_space(s: Seq<char>, i: int, k: int)
    requires
        0 <= i <= k <= s.len(),
        forall|j: int| i <= j < k ==> s[j] != ' ',
        k == s.len() || s[k] == ' ',
    ensures
        crate::text::next_char(s, ' ', i) == k,
    decreases k - i,
{
    if i < k {
        lemma_next_space(s, i + 1, k);
    }
}

/// A parsed Nex page.
pub struct Nex {
    pub lines: Vec<NexLine>,
}

impl View for Nex {
    type V = Seq<NexLineView>;

    open spec fn view(&self) -> Seq<NexLineView> {
        self.lines@.map_values(|l: NexLine| l@)
    }
}

impl Nex {
    pub fn new() -> (r: Nex)
        ensures
            r@ == Seq::<NexLineView>::empty(),
    {
        let r = Nex { lines: Vec::new() };
        assert(r@ =~= Seq::<NexLineView>::empty());
        r
    }

    /// Replaces the page with the parse of a response body.
    pub fn parse_content(&mut self, response: &[u8], plaintext: bool)
        ensures
            final(self)@ == nex_page(utf8_lossy(response@), plaintext),
    {
        let text = lossy_string(response);
        let chars = chars_of(text.as_str());
        let mut out: Vec<NexLine> = Vec::new();
        if plaintext {
            out.push(make_line(&chars));
            self.lines = out;
            assert(self@ =~= nex_page(utf8_lossy(response@), plaintext));
            return;
        }
        let lines = split_lines(&chars);
        let mut i: usize = 0;
        while i < lines.len()
            invariant
                0 <= i <= lines@.len(),
                views(lines@) == lines_of(chars@),
                out@.len() == i,
                forall|j: int| 0 <= j < i ==> (#[trigger] out@[j])@ == nex_line(lines@[j]@),
            decreases lines@.len() - i,
        {
            out.push(make_line(lines[i].as_slice()));
            i = i + 1;
        }
        self.lines = out;
        proof {
            assert(self@ =~= nex_page(utf8_lossy(response@), plaintext));
        }
    }
}

} // verus!
