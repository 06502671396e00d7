//! Dispatch of a response body to the content parser of its protocol.
use vstd::prelude::*;
use crate::gemtext::{gemtext_page, Gemtext, GemtextLineView};
use crate::gopher::{gopher_page, Gopher, GopherLineView};
use crate::nex::{nex_page, Nex, NexLineView};
use crate::plain::{Finger, Plaintext};
use crate::protocol::Protocol;
use crate::scorpion::{scorpion_page, scorpion_truncated, BlockType, BlockView, Scorpion};
use crate::text::utf8_lossy;

verus! {

/// One parser per protocol family, each holding the last page it parsed.
pub struct ContentHandlers {
    pub finger: Finger,
    pub gemtext: Gemtext,
    pub gopher: Gopher,
    pub nex: Nex,
    pub scorpion: Scorpion,
    pub plaintext: Plaintext,
}

pub struct ContentView {
    pub finger: Seq<char>,
    pub gemtext: Seq<GemtextLineView>,
    pub gopher: Seq<GopherLineView>,
    pub nex: Seq<NexLineView>,
    pub scorpion: Seq<BlockView>,
    pub scorpion_truncated: bool,
    pub plaintext: Seq<char>,
}

impl View for ContentHandlers {
    type V = ContentView;

    open spec fn view(&self) -> ContentView {
        ContentView {
            finger: self.finger.current_page_contents@,
            gemtext: self.gemtext@,
            gopher: self.gopher@,
            nex: self.nex@,
            scorpion: self.scorpion@,
            scorpion_truncated: self.scorpion.truncated,
            plaintext: self.plaintext.current_page_contents@,
        }
    }
}

/// The pages after a body is parsed for a protocol: the parser of its family
/// replaces its page; the others keep theirs.
pub open spec fn content_after(c: ContentView, b: Seq<u8>, plaintext: bool, p: Protocol) -> ContentView {
    match p {
        Protocol::Finger => ContentView { finger: utf8_lossy(b), ..c },
        Protocol::Gemini | Protocol::Spartan | Protocol::Guppy | Protocol::Scroll => ContentView {
            gemtext: gemtext_page(utf8_lossy(b), plaintext),
            ..c
        },
        Protocol::Gopher(_) => ContentView { gopher: gopher_page(utf8_lossy(b), plaintext), ..c },
        Protocol::Nex => ContentView { nex: nex_page(utf8_lossy(b), plaintext), ..c },
        Protocol::Scorpion => ContentView {
            scorpion: scorpion_page(b, plaintext),
            scorpion_truncated: !plaintext && scorpion_truncated(b),
            ..c
        },
        _ => ContentView { plaintext: utf8_lossy(b), ..c },
    }
}

/// The pages after a text is shown as literal text for a protocol: the
/// parser of its family holds the text as one literal block.
pub open spec fn content_shown(c: ContentView, t: Seq<char>, p: Protocol) -> ContentView {
    match p {
        Protocol::Finger => ContentView { finger: t, ..c },
        Protocol::Gemini | Protocol::Spartan | Protocol::Guppy | Protocol::Scroll => ContentView {
            gemtext: gemtext_page(t, true),
            ..c
        },
        Protocol::Gopher(_) => ContentView { gopher: gopher_page(t, true), ..c },
        Protocol::Nex => ContentView { nex: nex_page(t, true), ..c },
        Protocol::Scorpion => ContentView {
            scorpion: seq![
                BlockView {
                    block_type: BlockType::Paragraph,
                    attribute_data: seq![],
                    body_data: t,
                    plaintext: true,
                },
            ],
            scorpion_truncated: false,
            ..c
        },
        _ => ContentView { plaintext: t, ..c },
    }
}

/// Parsing bytes that decode to a text, in plaintext mode, shows that text.
pub proof fn lemma_shown_text(c: ContentView, b: Seq<u8>, t: Seq<char>, p: Protocol)
    requires
        utf8_lossy(b) == t,
    ensures
        content_after(c, b, true, p) == content_shown(c, t, p),
{
}

impl ContentHandlers {
    pub fn new() -> (r: ContentHandlers)
        ensures
            r@.finger.len() == 0,
            r@.gemtext.len() == 0,
            r@.gopher.len() == 0,
            r@.nex.len() == 0,
            r@.scorpion.len() == 0,
            !r@.scorpion_truncated,
            r@.plaintext.len() == 0,
    {
        ContentHandlers {
            finger: Finger::new(),
            gemtext: Gemtext::new(),
            gopher: Gopher::new(),
            nex: Nex::new(),
            scorpion: Scorpion::new(),
            plaintext: Plaintext::new(),
        }
    }

    /// Hands a body to the parser of the protocol's family.
    pub fn parse_content(&mut self, response: &[u8], plaintext: bool, protocol: Protocol)
        ensures
            final(self)@ == content_after(old(self)@, response@, plaintext, protocol),
    {
        match protocol {
            Protocol::Finger => self.finger.parse_content(response, plaintext),
            Protocol::Gemini | Protocol::Spartan | Protocol::Guppy | Protocol::Scroll => {
                self.gemtext.parse_content(response, plaintext)
            },
            Protocol::Gopher(_) => self.gopher.parse_content(response, plaintext),
            Protocol::Nex => self.nex.parse_content(response, plaintext),
            Protocol::Scorpion => self.scorpion.parse_content(response, plaintext),
            _ => self.plaintext.parse_content(response, plaintext),
        }
    }
}

} // verus!
