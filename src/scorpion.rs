//! The Scorpion block codec: a stream of self-delimiting binary blocks, each
//! a type/encoding byte, a big-endian attribute length and attribute bytes,
//! and a big-endian body length and body bytes.
use vstd::prelude::*;
use crate::status::byte_slice;
use crate::text::{lossy_string, string_of, utf8_lossy};

verus! {

#[derive(Clone, Copy, Debug, PartialEq, Eq, Structural)]
pub enum BlockType {
    Paragraph,
    Heading1,
    Heading2,
    Heading3,
    Heading4,
    Heading5,
    Heading6,
    Hyperlink,
    HyperlinkInput,
    HyperlinkInteractive,
    AlternateService,
    Blockquote,
    Preformatted,
    Metadata,
}

#[derive(Clone, Copy, Debug, PartialEq, Eq, Structural)]
pub enum CharacterEncoding {
    TRON8,
    PC,
    ISO2022,
    TRON8RTL,
    ISO2022RTL,
}

/// The block type of a type nibble; unknown nibbles are paragraphs.
pub open spec fn block_type_of(v: u8) -> BlockType {
    if v == 0x01 {
        BlockType::Heading1
    } else if v == 0x02 {
        BlockType::Heading2
    } else if v == 0x03 {
        BlockType::Heading3
    } else if v == 0x04 {
        BlockType::Heading4
    } else if v == 0x05 {
        BlockType::Heading5
    } else if v == 0x06 {
        BlockType::Heading6
    } else if v == 0x08 {
        BlockType::Hyperlink
    } else if v == 0x09 {
        BlockType::HyperlinkInput
    } else if v == 0x0a {
        BlockType::HyperlinkInteractive
    } else if v == 0x0b {
        BlockType::AlternateService
    } else if v == 0x0c {
        BlockType::Blockquote
    } else if v == 0x0d {
        BlockType::Preformatted
    } else if v == 0x0f {
        BlockType::Metadata
    } else {
        BlockType::Paragraph
    }
}

/// The encoding of an encoding nibble (in the high bits); unknown ones are
/// TRON-8.
pub open spec fn encoding_of(v: u8) -> CharacterEncoding {
    if v == 0x10 {
        CharacterEncoding::PC
    } else if v == 0x20 {
        CharacterEncoding::ISO2022
    } else if v == 0x80 {
        CharacterEncoding::TRON8RTL
    } else if v == 0xa0 {
        CharacterEncoding::ISO2022RTL
    } else {
        CharacterEncoding::TRON8
    }
}

impl BlockType {
    pub fn from_nibble(v: u8) -> (r: BlockType)
        ensures
            r == block_type_of(v),
    {
        match v {
            0x01 => BlockType::Heading1,
            0x02 => BlockType::Heading2,
            0x03 => BlockType::Heading3,
            0x04 => BlockType::Heading4,
            0x05 => BlockType::Heading5,
            0x06 => BlockType::Heading6,
            0x08 => BlockType::Hyperlink,
            0x09 => BlockType::HyperlinkInput,
            0x0a => BlockType::HyperlinkInteractive,
            0x0b => BlockType::AlternateService,
            0x0c => BlockType::Blockquote,
            0x0d => BlockType::Preformatted,
            0x0f => BlockType::Metadata,
            _ => BlockType::Paragraph,
        }
    }
}

impl CharacterEncoding {
    pub fn from_bits(v: u8) -> (r: CharacterEncoding)
        ensures
            r == encoding_of(v),
    {
        match v {
            0x10 => CharacterEncoding::PC,
            0x20 => CharacterEncoding::ISO2022,
            0x80 => CharacterEncoding::TRON8RTL,
            0xa0 => CharacterEncoding::ISO2022RTL,
            _ => CharacterEncoding::TRON8,
        }
    }
}

/// What the code page 437 table with control characters gives for a byte.
pub uninterp spec fn cp437_control(b: u8) -> char;

/// What the code page 437 table with graphic characters in the control
/// range gives for a byte.
pub uninterp spec fn cp437_graphic(b: u8) -> char;

/// Relies on `codepage_437::CP437_CONTROL.decode`: a table lookup in which
/// every ASCII byte stands for itself.
#[verifier::external_body]
fn decode_control(b: u8) -> (r: char)
    ensures
        r == cp437_control(b),
        b < 0x80 ==> r as u32 == b as u32,
{
    codepage_437::CP437_CONTROL.decode(b)
}

/// Relies on `codepage_437::CP437_WINGDINGS.decode`: a table lookup in which
/// the zero byte and the printable ASCII bytes stand for themselves.
#[verifier::external_body]
fn decode_graphic(b: u8) -> (r: char)
    ensures
        r == cp437_graphic(b),
        (b == 0 || (0x20 <= b < 0x7f)) ==> r as u32 == b as u32,
{
    codepage_437::CP437_WINGDINGS.decode(b)
}

/// Formatting and structure codes, which the body text drops.
pub open spec fn is_format_code(x: u8) -> bool {
    x == 0x02 || x == 0x05 || x == 0x06 || x == 0x07 || x == 0x09 || x == 0x0a || (0x11 <= x
        <= 0x19) || x == 0x1b || x == 0x8e || x == 0x8f
}

/// The graphic character index that follows the escape byte: the byte less
/// 0x40, modulo 256.
pub open spec fn graphic_index(b: u8) -> u8 {
    if b >= 0x40 {
        (b - 0x40) as u8
    } else {
        (b + 0xc0) as u8
    }
}

/// The text of a block body under an encoding: format codes are dropped; in
/// the PC encoding 0x10 escapes the next byte into the graphic table and the
/// other bytes go through the control table; other encodings take each byte
/// as the character of that value.
pub open spec fn decode_body(enc: CharacterEncoding, b: Seq<u8>) -> Seq<char>
    decreases b.len(),
{
    if b.len() == 0 {
        seq![]
    } else if is_format_code(b[0]) {
        decode_body(enc, b.drop_first())
    } else if b[0] == 0x10 {
        if enc == CharacterEncoding::PC {
            if b.len() >= 2 {
                seq![cp437_graphic(graphic_index(b[1]))] + decode_body(
                    enc,
                    b.subrange(2, b.len() as int),
                )
            } else {
                seq![]
            }
        } else {
            decode_body(enc, b.drop_first())
        }
    } else if enc == CharacterEncoding::PC {
        seq![cp437_control(b[0])] + decode_body(enc, b.drop_first())
    } else {
        seq![b[0] as char] + decode_body(enc, b.drop_first())
    }
}

/// Decodes a block body into text.
pub fn parse_body_data(encoding: CharacterEncoding, body: &[u8]) -> (r: Vec<char>)
    ensures
        r@ == decode_body(encoding, body@),
{
    let mut out: Vec<char> = Vec::new();
    let n = body.len();
    let mut i: usize = 0;
    proof {
        assert(body@.subrange(0, n as int) =~= body@);
        assert(out@ + decode_body(encoding, body@) =~= decode_body(encoding, body@));
    }
    while i < n
        invariant
            n == body@.len(),
            0 <= i <= n,
            out@ + decode_body(encoding, body@.subrange(i as int, n as int)) == decode_body(
                encoding,
                body@,
            ),
        decreases n - i,
    {
        let ghost rest = body@.subrange(i as int, n as int);
        let ghost before = out@;
        proof {
            assert(rest.drop_first() =~= body@.subrange(i + 1, n as int));
            assert(rest[0] == body@[i as int]);
        }
        let x = body[i];
        if x == 0x02 || x == 0x05 || x == 0x06 || x == 0x07 || x == 0x09 || x == 0x0a || (0x11
            <= x && x <= 0x19) || x == 0x1b || x == 0x8e || x == 0x8f {
            i = i + 1;
        } else if x == 0x10 {
            if encoding == CharacterEncoding::PC {
                if i + 1 < n {
                    let y = body[i + 1];
                    let g = if y >= 0x40 {
                        y - 0x40
                    } else {
                        y + 0xc0
                    };
                    out.push(decode_graphic(g));
                    proof {
                        assert(rest.subrange(2, rest.len() as int) =~= body@.subrange(
                            i + 2,
                            n as int,
                        ));
                        assert(out@ + decode_body(encoding, body@.subrange(i + 2, n as int))
                            =~= before + decode_body(encoding, rest));
                    }
                    i = i + 2;
                } else {
                    proof {
                        assert(out@ + decode_body(encoding, body@.subrange(n as int, n as int))
                            =~= before + decode_body(encoding, rest));
                    }
                    i = n;
                }
            } else {
                i = i + 1;
            }
        } else {
            if encoding == CharacterEncoding::PC {
                out.push(decode_control(x));
            } else {
                out.push(x as char);
            }
            proof {
                assert(out@ + decode_body(encoding, body@.subrange(i + 1, n as int)) =~= before
                    + decode_body(encoding, rest));
            }
            i = i + 1;
        }
    }
    proof {
        assert(out@ + decode_body(encoding, body@.subrange(n as int, n as int)) =~= out@);
    }
    out
}

/// One block of a page.
pub struct Block {
    pub block_type: BlockType,
    /// The attribute text: a link target or metadata.
    pub attribute_data: String,
    pub body_data: String,
    /// Whether the block is a whole body shown as literal text.
    pub plaintext: bool,
}

pub struct BlockView {
    pub block_type: BlockType,
    pub attribute_data: Seq<char>,
    pub body_data: Seq<char>,
    pub plaintext: bool,
}

impl View for Block {
    type V = BlockView;

    open spec fn view(&self) -> BlockView {
        BlockView {
            block_type: self.block_type,
            attribute_data: self.attribute_data@,
            body_data: self.body_data@,
            plaintext: self.plaintext,
        }
    }
}

/// The length of the attribute of the block at the start of `b`.
pub open spec fn attr_len(b: Seq<u8>) -> int {
    b[1] * 256 + b[2]
}

/// The length of the body of the block at the start of `b`, whose attribute
/// is `a` bytes long.
pub open spec fn body_len(b: Seq<u8>, a: int) -> int {
    b[3 + a] * 65536 + b[4 + a] * 256 + b[5 + a]
}

/// Whether a whole block stands at the start of `b`.
pub open spec fn block_fits(b: Seq<u8>) -> bool {
    &&& b.len() >= 6
    &&& 6 + attr_len(b) <= b.len()
    &&& 6 + attr_len(b) + body_len(b, attr_len(b)) <= b.len()
}

/// The size of the whole block at the start of `b`.
pub open spec fn block_size(b: Seq<u8>) -> int {
    6 + attr_len(b) + body_len(b, attr_len(b))
}

/// The block at the start of `b`.
pub open spec fn block_at(b: Seq<u8>) -> BlockView {
    let a = attr_len(b);
    BlockView {
        block_type: block_type_of(b[0] & 0x0f),
        attribute_data: utf8_lossy(b.subrange(3, 3 + a)),
        body_data: decode_body(encoding_of(b[0] & 0xf0), b.subrange(6 + a, block_size(b))),
        plaintext: false,
    }
}

/// The blocks of a stream, up to the first that does not fit whole.
pub open spec fn scorpion_blocks(b: Seq<u8>) -> Seq<BlockView>
    decreases b.len(),
{
    if !block_fits(b) {
        seq![]
    } else {
        seq![block_at(b)] + scorpion_blocks(b.subrange(block_size(b), b.len() as int))
    }
}

/// Whether the stream ends in bytes that do not form a whole block.
pub open spec fn scorpion_truncated(b: Seq<u8>) -> bool
    decreases b.len(),
{
    if !block_fits(b) {
        b.len() > 0
    } else {
        scorpion_truncated(b.subrange(block_size(b), b.len() as int))
    }
}

/// The page a Scorpion body gives: in plaintext mode one literal paragraph;
/// otherwise its blocks.
pub open spec fn scorpion_page(b: Seq<u8>, plaintext: bool) -> Seq<BlockView> {
    if plaintext {
        seq![
            BlockView {
                block_type: BlockType::Paragraph,
                attribute_data: seq![],
                body_data: utf8_lossy(b),
                plaintext: true,
            },
        ]
    } else {
        scorpion_blocks(b)
    }
}

/// A stream shorter than a block header holds no block, and is reported as
/// truncated exactly when it is not empty.
pub proof fn lemma_short_stream(b: Seq<u8>)
    requires
        b.len() < 6,
    ensures
        scorpion_blocks(b) == Seq::<BlockView>::empty(),
        scorpion_truncated(b) == (b.len() > 0),
{
    assert(scorpion_blocks(b) =~= Seq::<BlockView>::empty());
}

/// A parsed Scorpion page.
pub struct Scorpion {
    pub blocks: Vec<Block>,
    /// Whether the stream ended in an incomplete block, which was dropped.
    pub truncated: bool,
}

pub open spec fn block_views(v: Seq<Block>) -> Seq<BlockView> {
    v.map_values(|b: Block| b@)
}

impl View for Scorpion {
    type V = Seq<BlockView>;

    open spec fn view(&self) -> Seq<BlockView> {
        block_views(self.blocks@)
    }
}

impl Scorpion {
    pub fn new() -> (r: Scorpion)
        ensures
            r@ == Seq::<BlockView>::empty(),
            !r.truncated,
    {
        let r = Scorpion { blocks: Vec::new(), truncated: false };
        assert(r@ =~= Seq::<BlockView>::empty());
        r
    }

    /// Replaces the page with the parse of a response body.
    pub fn parse_content(&mut self, response: &[u8], plaintext: bool)
        ensures
            final(self)@ == scorpion_page(response@, plaintext),
            final(self).truncated == (!plaintext && scorpion_truncated(response@)),
    {
        if plaintext {
            let block = Block {
                block_type: BlockType::Paragraph,
                attribute_data: String::new(),
                body_data: lossy_string(response),
                plaintext: true,
            };
            let mut blocks: Vec<Block> = Vec::new();
            blocks.push(block);
            self.blocks = blocks;
            self.truncated = false;
            assert(self@ =~= scorpion_page(response@, plaintext));
            return;
        }
        let n = response.len();
        let mut blocks: Vec<Block> = Vec::new();
        let mut offset: usize = 0;
        proof {
            assert(response@.subrange(0, n as int) =~= response@);
            assert(block_views(blocks@) + scorpion_blocks(response@) =~= scorpion_blocks(response@));
        }
        loop
            invariant
                n == response@.len(),
                0 <= offset <= n,
                block_views(blocks@) + scorpion_blocks(response@.subrange(offset as int, n as int))
                    == scorpion_blocks(response@),
                scorpion_truncated(response@.subrange(offset as int, n as int))
                    == scorpion_truncated(response@),
            ensures
                0 <= offset <= n,
                block_views(blocks@) + scorpion_blocks(response@.subrange(offset as int, n as int))
                    == scorpion_blocks(response@),
                scorpion_truncated(response@.subrange(offset as int, n as int))
                    == scorpion_truncated(response@),
                !block_fits(response@.subrange(offset as int, n as int)),
            decreases n - offset,
        {
            let ghost rest = response@.subrange(offset as int, n as int);
            if n - offset < 6 {
                break ;
            }
            let head = response[offset];
            let alen = response[offset + 1] as usize * 256 + response[offset + 2] as usize;
            proof {
                assert(rest[1] == response@[offset + 1]);
                assert(rest[2] == response@[offset + 2]);
                assert(attr_len(rest) == alen);
            }
            if alen > n - offset - 6 {
                break ;
            }
            let a0 = offset + 3;
            let b0 = a0 + alen;
            let blen = response[b0] as usize * 65536 + response[b0 + 1] as usize * 256
                + response[b0 + 2] as usize;
            proof {
                assert(rest[3 + alen] == response@[b0 as int]);
                assert(rest[4 + alen] == response@[b0 + 1]);
                assert(rest[5 + alen] == response@[b0 + 2]);
                assert(body_len(rest, alen as int) == blen);
            }
            if blen > n - offset - 6 - alen {
                break ;
            }
            let body_start = b0 + 3;
            let end = body_start + blen;
            proof {
                assert(rest[0] == head);
                assert(block_fits(rest));
                assert(block_size(rest) == end - offset);
            }
            let attr = byte_slice(response, a0, b0);
            let body = byte_slice(response, body_start, end);
            let block_type = BlockType::from_nibble(head & 0x0f);
            let encoding = CharacterEncoding::from_bits(head & 0xf0);
            let text = parse_body_data(encoding, &body);
            let block = Block {
                block_type,
                attribute_data: lossy_string(&attr),
                body_data: string_of(&text),
                plaintext: false,
            };
            let ghost before = blocks@;
            blocks.push(block);
            proof {
                assert(rest.subrange(3, 3 + alen) =~= attr@);
                assert(rest.subrange(6 + alen, block_size(rest)) =~= body@);
                assert(block@ == block_at(rest));
                assert(rest.subrange(block_size(rest), rest.len() as int) =~= response@.subrange(
                    end as int,
                    n as int,
                ));
                assert(block_views(blocks@) =~= block_views(before) + seq![block_at(rest)]);
                assert(block_views(blocks@) + scorpion_blocks(response@.subrange(end as int, n as int))
                    =~= block_views(before) + scorpion_blocks(rest));
            }
            offset = end;
        }
        let ghost rest = response@.subrange(offset as int, n as int);
        proof {
            assert(scorpion_blocks(rest) =~= Seq::<BlockView>::empty());
            assert(block_views(blocks@) + Seq::<BlockView>::empty() =~= block_views(blocks@));
        }
        self.blocks = blocks;
        self.truncated = offset < n;
    }
}

} // verus!
