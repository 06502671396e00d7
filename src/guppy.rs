//! Guppy's chunked transfer over UDP, as a state machine: each datagram is
//! handed in, and the acknowledgment to send (if any) comes out. The socket
//! work stays with the caller.
use vstd::prelude::*;
use crate::status::{first_byte, lemma_first_byte};

verus! {

/// The first line of a datagram, without its line ending.
pub open spec fn first_line(d: Seq<u8>) -> Seq<u8> {
    let k = first_byte(d, 0x0a);
    let line = d.subrange(0, if k < d.len() { k } else { d.len() as int });
    if line.len() > 0 && line.last() == 0x0d {
        line.drop_last()
    } else {
        line
    }
}

/// What follows the first line of a datagram.
pub open spec fn after_first_line(d: Seq<u8>) -> Seq<u8> {
    let k = first_byte(d, 0x0a);
    if k < d.len() {
        d.subrange(k + 1, d.len() as int)
    } else {
        seq![]
    }
}

/// The sequence number of a header line: the text before its first space.
pub open spec fn sequence_part(line: Seq<u8>) -> Seq<u8> {
    line.subrange(0, first_byte(line, 0x20))
}

/// The content type of a header line: the text after its first space, if
/// it has one.
pub open spec fn content_type_part(line: Seq<u8>) -> Option<Seq<u8>> {
    let k = first_byte(line, 0x20);
    if k < line.len() {
        Some(line.subrange(k + 1, line.len() as int))
    } else {
        None
    }
}

/// A datagram that carries a single content line after its header ends the
/// transfer.
pub open spec fn is_terminal(d: Seq<u8>) -> bool {
    let rest = after_first_line(d);
    first_byte(rest, 0x0a) >= rest.len()
}

/// The bytes without their zero bytes.
pub open spec fn strip_nul(b: Seq<u8>) -> Seq<u8>
    decreases b.len(),
{
    if b.len() == 0 {
        seq![]
    } else if b[0] == 0 {
        strip_nul(b.drop_first())
    } else {
        seq![b[0]] + strip_nul(b.drop_first())
    }
}

/// The model of a transfer: the bytes gathered so far (a content-type line,
/// then the body), whether the first datagram was seen, and whether the
/// transfer is over.
pub struct GuppyView {
    pub data: Seq<u8>,
    pub started: bool,
    pub done: bool,
}

/// The state after one datagram, and the acknowledgment it asks for: the
/// first datagram contributes its content type as a line; a terminal one
/// ends the transfer; any other contributes its content (zero bytes
/// stripped) and is acknowledged with its sequence number.
pub open spec fn guppy_step(s: GuppyView, d: Seq<u8>) -> (GuppyView, Option<Seq<u8>>) {
    let line = first_line(d);
    let header = if !s.started && content_type_part(line) is Some {
        content_type_part(line)->Some_0.push(0x0a)
    } else {
        seq![]
    };
    if is_terminal(d) {
        (GuppyView { data: s.data + header, started: true, done: true }, None)
    } else {
        (
            GuppyView {
                data: s.data + header + strip_nul(after_first_line(d)),
                started: true,
                done: false,
            },
            Some(sequence_part(line) + seq![0x0d, 0x0a]),
        )
    }
}

pub struct GuppyTransfer {
    data: Vec<u8>,
    started: bool,
    done: bool,
}

impl View for GuppyTransfer {
    type V = GuppyView;

    closed spec fn view(&self) -> GuppyView {
        GuppyView { data: self.data@, started: self.started, done: self.done }
    }
}

fn find(b: &[u8], from: usize, to: usize, x: u8) -> (r: usize)
    requires
        from <= to <= b@.len(),
    ensures
        from <= r <= to,
        first_byte(b@.subrange(from as int, to as int), x) == r - from,
{
    let mut i: usize = from;
    while i < to && b[i] != x
        invariant
            from <= i <= to <= b@.len(),
            forall|j: int| from <= j < i ==> b@[j] != x,
        decreases to - i,
    {
        i = i + 1;
    }
    proof {
        lemma_first_byte(b@.subrange(from as int, to as int), x, i - from);
    }
    i
}

/// Where the first line of a datagram ends, where its content starts, and
/// where the first space of that line stands.
fn header_bounds(d: &[u8]) -> (r: (usize, usize, usize))
    ensures
        r.1 <= d@.len(),
        d@.subrange(r.1 as int, d@.len() as int) == after_first_line(d@),
        r.0 <= r.1,
        d@.subrange(0, r.0 as int) == first_line(d@),
        r.2 <= r.0,
        r.2 == first_byte(first_line(d@), 0x20),
{
    let n = d.len();
    let k = find(d, 0, n, 0x0a);
    proof {
        assert(d@.subrange(0, n as int) =~= d@);
    }
    let mut e = k;
    if e > 0 && d[e - 1] == 0x0d {
        e = e - 1;
    }
    proof {
        assert(d@.subrange(0, e as int) =~= first_line(d@));
    }
    let sp = find(d, 0, e, 0x20);
    let start = if k < n {
        k + 1
    } else {
        n
    };
    proof {
        assert(d@.subrange(start as int, n as int) =~= after_first_line(d@));
    }
    (e, start, sp)
}

fn push_range(v: &mut Vec<u8>, b: &[u8], a: usize, e: usize)
    requires
        a <= e <= b@.len(),
    ensures
        final(v)@ == old(v)@ + b@.subrange(a as int, e as int),
{
    let mut i: usize = a;
    while i < e
        invariant
            a <= i <= e <= b@.len(),
            v@ == old(v)@ + b@.subrange(a as int, i as int),
        decreases e - i,
    {
        v.push(b[i]);
        i = i + 1;
        proof {
            assert(v@ =~= old(v)@ + b@.subrange(a as int, i as int));
        }
    }
}

impl GuppyTransfer {
    pub fn new() -> (r: GuppyTransfer)
        ensures
            r@.data.len() == 0,
            !r@.started,
            !r@.done,
    {
        GuppyTransfer { data: Vec::new(), started: false, done: false }
    }

    /// Whether the terminal datagram has arrived.
    pub fn is_done(&self) -> (r: bool)
        ensures
            r == self@.done,
    {
        self.done
    }

    /// The bytes gathered: the content-type line, then the body.
    pub fn data(&self) -> (r: &Vec<u8>)
        ensures
            r@ == self@.data,
    {
        &self.data
    }

    /// Takes in one datagram and returns the acknowledgment to send back.
    pub fn receive(&mut self, datagram: &[u8]) -> (ack: Option<Vec<u8>>)
        requires
            !old(self)@.done,
        ensures
            final(self)@ == guppy_step(old(self)@, datagram@).0,
            match guppy_step(old(self)@, datagram@).1 {
                Some(a) => ack matches Some(v) && v@ == a,
                None => ack is None,
            },
    {
        let n = datagram.len();
        let (e, start, sp) = header_bounds(datagram);
        let ghost line = first_line(datagram@);
        let ghost before = self.data@;
        if !self.started && sp < e {
            push_range(&mut self.data, datagram, sp + 1, e);
            self.data.push(0x0a);
            proof {
                assert(datagram@.subrange(sp + 1, e as int) =~= line.subrange(sp + 1, line.len() as int));
                assert(self.data@ =~= before + content_type_part(line)->Some_0.push(0x0a));
            }
        }
        let ghost with_header = self.data@;
        proof {
            if !(!old(self)@.started && content_type_part(line) is Some) {
                assert(with_header =~= before + Seq::<u8>::empty());
            }
        }
        self.started = true;
        let ghost rest = after_first_line(datagram@);
        let nl = find(datagram, start, n, 0x0a);
        if nl >= n {
            self.done = true;
            return None;
        }
        let ghost chunk_start = self.data@;
        let mut i: usize = start;
        proof {
            assert(strip_nul(datagram@.subrange(start as int, n as int)) == strip_nul(rest));
        }
        while i < n
            invariant
                start <= i <= n,
                n == datagram@.len(),
                self.data@ + strip_nul(datagram@.subrange(i as int, n as int)) == chunk_start
                    + strip_nul(rest),
                rest == datagram@.subrange(start as int, n as int),
                self.started,
                !self.done,
            decreases n - i,
        {
            let ghost r = datagram@.subrange(i as int, n as int);
            let ghost b = self.data@;
            proof {
                assert(r.drop_first() =~= datagram@.subrange(i + 1, n as int));
            }
            if datagram[i] != 0 {
                self.data.push(datagram[i]);
                proof {
                    assert(self.data@ + strip_nul(r.drop_first()) =~= b + strip_nul(r));
                }
            }
            i = i + 1;
        }
        proof {
            assert(strip_nul(datagram@.subrange(n as int, n as int)) =~= Seq::<u8>::empty());
            assert(self.data@ + Seq::<u8>::empty() =~= self.data@);
            assert(self.data@ =~= with_header + strip_nul(rest));
        }
        let mut ack: Vec<u8> = Vec::new();
        push_range(&mut ack, datagram, 0, sp);
        ack.push(0x0d);
        ack.push(0x0a);
        proof {
            assert(datagram@.subrange(0, sp as int) =~= sequence_part(line));
            assert(ack@ =~= sequence_part(line) + seq![0x0d, 0x0a]);
        }
        Some(ack)
    }
}

} // verus!
