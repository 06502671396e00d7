//! Character-level helpers shared by the parsers: line splitting, whitespace
//! trimming, prefix tests and decimal formatting, each with its model.
use vstd::prelude::*;

verus! {

/// Whether `c` has the Unicode `White_Space` property (what
/// `char::is_whitespace` tests).
pub open spec fn is_space(c: char) -> bool {
    let u = c as u32;
    (0x09 <= u && u <= 0x0d) || u == 0x20 || u == 0x85 || u == 0xa0 || u == 0x1680 || (0x2000
        <= u && u <= 0x200a) || u == 0x2028 || u == 0x2029 || u == 0x202f || u == 0x205f || u
        == 0x3000
}

pub fn is_space_char(c: char) -> (r: bool)
    ensures
        r == is_space(c),
{
    let u = c as u32;
    (0x09 <= u && u <= 0x0d) || u == 0x20 || u == 0x85 || u == 0xa0 || u == 0x1680 || (0x2000
        <= u && u <= 0x200a) || u == 0x2028 || u == 0x2029 || u == 0x202f || u == 0x205f || u
        == 0x3000
}

/// `s` with leading whitespace removed.
pub open spec fn trim_start(s: Seq<char>) -> Seq<char>
    decreases s.len(),
{
    if s.len() > 0 && is_space(s[0]) {
        trim_start(s.drop_first())
    } else {
        s
    }
}

/// `s` with trailing whitespace removed.
pub open spec fn trim_end(s: Seq<char>) -> Seq<char>
    decreases s.len(),
{
    if s.len() > 0 && is_space(s.last()) {
        trim_end(s.drop_last())
    } else {
        s
    }
}

/// `s` with whitespace removed from both ends.
pub open spec fn trim(s: Seq<char>) -> Seq<char> {
    trim_end(trim_start(s))
}

/// Whether `s` begins with `p`.
pub open spec fn has_prefix(s: Seq<char>, p: Seq<char>) -> bool {
    p.len() <= s.len() && s.subrange(0, p.len() as int) == p
}

/// The index of the first newline in `s` at or after `i`, or the length of
/// `s` when there is none.
pub open spec fn next_newline(s: Seq<char>, i: int) -> int
    decreases s.len() - i,
{
    if i < 0 || i >= s.len() {
        s.len() as int
    } else if s[i] == '\n' {
        i
    } else {
        next_newline(s, i + 1)
    }
}

/// A line without its carriage return, if one ends it.
pub open spec fn strip_cr(l: Seq<char>) -> Seq<char> {
    if l.len() > 0 && l.last() == '\r' {
        l.drop_last()
    } else {
        l
    }
}

/// The lines of `s`: split at `\n` or `\r\n`; a final line ending is
/// optional and yields no empty last line.
pub open spec fn lines_of(s: Seq<char>) -> Seq<Seq<char>>
    decreases s.len(),
{
    if s.len() == 0 {
        seq![]
    } else {
        let k = next_newline(s, 0);
        if k < 0 || k >= s.len() {
            seq![s]
        } else {
            seq![strip_cr(s.subrange(0, k))] + lines_of(s.subrange(k + 1, s.len() as int))
        }
    }
}

/// Lines joined with a single `\n` between them.
pub open spec fn join_lines(ls: Seq<Seq<char>>) -> Seq<char>
    decreases ls.len(),
{
    if ls.len() == 0 {
        seq![]
    } else if ls.len() == 1 {
        ls[0]
    } else {
        ls[0] + seq!['\n'] + join_lines(ls.drop_first())
    }
}

/// The views of a sequence of character vectors.
pub open spec fn views(v: Seq<Vec<char>>) -> Seq<Seq<char>> {
    v.map_values(|x: Vec<char>| x@)
}

/// The decimal digits of `n`.
pub open spec fn decimal(n: nat) -> Seq<char>
    decreases n,
{
    if n < 10 {
        seq![digit_char(n)]
    } else {
        decimal(n / 10).push(digit_char(n % 10))
    }
}

pub open spec fn digit_char(d: nat) -> char {
    if d == 0 {
        '0'
    } else if d == 1 {
        '1'
    } else if d == 2 {
        '2'
    } else if d == 3 {
        '3'
    } else if d == 4 {
        '4'
    } else if d == 5 {
        '5'
    } else if d == 6 {
        '6'
    } else if d == 7 {
        '7'
    } else if d == 8 {
        '8'
    } else {
        '9'
    }
}

/// What `String::from_utf8_lossy` makes of a byte sequence.
pub uninterp spec fn utf8_lossy(b: Seq<u8>) -> Seq<char>;

/// Relies on `String::from_utf8_lossy`: decodes UTF-8, replacing each invalid
/// sequence with U+FFFD; the result depends on the bytes alone, and valid
/// UTF-8 gives the text it encodes.
#[verifier::external_body]
pub(crate) fn lossy_string(b: &[u8]) -> (r: String)
    ensures
        r@ == utf8_lossy(b@),
        vstd::utf8::valid_utf8(b@) ==> r@ == vstd::utf8::decode_utf8(b@),
{
    String::from_utf8_lossy(b).into_owned()
}

/// Relies on `String: FromIterator<char>`: the string holds the characters in
/// order.
#[verifier::external_body]
pub(crate) fn string_of(v: &[char]) -> (r: String)
    ensures
        r@ == v@,
{
    v.iter().collect()
}

/// The characters of a string.
pub fn chars_of(s: &str) -> (r: Vec<char>)
    ensures
        r@ == s@,
{
    let mut v: Vec<char> = Vec::new();
    for c in it: s.chars()
        invariant
            v@ == it.seq().take(it.index() as int),
    {
        v.push(c);
    }
    v
}

/// `c` with an ASCII capital letter made small.
pub open spec fn ascii_lower(c: char) -> char {
    if 'A' <= c <= 'Z' {
        ((c as u8) + 32) as u8 as char
    } else {
        c
    }
}

/// `s` with its ASCII capital letters made small.
pub open spec fn lower(s: Seq<char>) -> Seq<char> {
    s.map_values(|c: char| ascii_lower(c))
}

/// `s` with its ASCII capital letters made small.
pub fn to_ascii_lower(s: &[char]) -> (r: Vec<char>)
    ensures
        r@ == lower(s@),
{
    let mut v: Vec<char> = Vec::new();
    let mut i: usize = 0;
    while i < s.len()
        invariant
            0 <= i <= s@.len(),
            v@ == lower(s@.subrange(0, i as int)),
        decreases s@.len() - i,
    {
        let c = s[i];
        let d = if 'A' <= c && c <= 'Z' {
            ((c as u8) + 32) as char
        } else {
            c
        };
        v.push(d);
        i = i + 1;
        proof {
            assert(v@ =~= lower(s@.subrange(0, i as int)));
        }
    }
    proof {
        assert(s@.subrange(0, s@.len() as int) =~= s@);
    }
    v
}

/// Whether two character sequences are equal.
pub fn eq_chars(s: &[char], t: &[char]) -> (r: bool)
    ensures
        r == (s@ == t@),
{
    if s.len() != t.len() {
        return false;
    }
    let mut i: usize = 0;
    while i < s.len()
        invariant
            s@.len() == t@.len(),
            0 <= i <= s@.len(),
            forall|j: int| 0 <= j < i ==> s@[j] == t@[j],
        decreases s@.len() - i,
    {
        if s[i] != t[i] {
            return false;
        }
        i = i + 1;
    }
    proof {
        assert(s@ =~= t@);
    }
    true
}

/// Whether `s` begins with `p`.
pub fn starts_with(s: &[char], p: &[char]) -> (r: bool)
    ensures
        r == has_prefix(s@, p@),
{
    if p.len() > s.len() {
        return false;
    }
    let mut i: usize = 0;
    while i < p.len()
        invariant
            p@.len() <= s@.len(),
            0 <= i <= p@.len(),
            forall|j: int| 0 <= j < i ==> s@[j] == p@[j],
        decreases p@.len() - i,
    {
        if s[i] != p[i] {
            proof {
                assert(s@.subrange(0, p@.len() as int)[i as int] != p@[i as int]);
            }
            return false;
        }
        i = i + 1;
    }
    proof {
        assert(s@.subrange(0, p@.len() as int) =~= p@);
    }
    true
}

/// Whether `s` ends with `p`.
pub fn ends_with(s: &[char], p: &[char]) -> (r: bool)
    ensures
        r == (p@.len() <= s@.len() && s@.subrange(s@.len() - p@.len(), s@.len() as int) == p@),
{
    if p.len() > s.len() {
        return false;
    }
    let off = s.len() - p.len();
    let mut i: usize = 0;
    while i < p.len()
        invariant
            p@.len() <= s@.len(),
            off + p@.len() == s@.len(),
            s@.len() == s.len(),
            0 <= i <= p@.len(),
            forall|j: int| 0 <= j < i ==> s@[off + j] == p@[j],
        decreases p@.len() - i,
    {
        if s[off + i] != p[i] {
            proof {
                assert(s@.subrange(off as int, s@.len() as int)[i as int] != p@[i as int]);
            }
            return false;
        }
        i = i + 1;
    }
    proof {
        assert(s@.subrange(off as int, s@.len() as int) =~= p@);
    }
    true
}

/// The characters of `s` from `a` to `b`.
pub fn slice(s: &[char], a: usize, b: usize) -> (r: Vec<char>)
    requires
        a <= b <= s@.len(),
    ensures
        r@ == s@.subrange(a as int, b as int),
{
    let mut v: Vec<char> = Vec::new();
    let mut i: usize = a;
    while i < b
        invariant
            a <= i <= b <= s@.len(),
            v@ == s@.subrange(a as int, i as int),
        decreases b - i,
    {
        v.push(s[i]);
        i = i + 1;
        proof {
            assert(v@ =~= s@.subrange(a as int, i as int));
        }
    }
    v
}

/// Appends `t` to `v`.
pub fn append(v: &mut Vec<char>, t: &[char])
    ensures
        final(v)@ == old(v)@ + t@,
{
    let mut i: usize = 0;
    while i < t.len()
        invariant
            0 <= i <= t@.len(),
            v@ == old(v)@ + t@.subrange(0, i as int),
        decreases t@.len() - i,
    {
        v.push(t[i]);
        i = i + 1;
        proof {
            assert(v@ =~= old(v)@ + t@.subrange(0, i as int));
        }
    }
    proof {
        assert(t@.subrange(0, t@.len() as int) =~= t@);
    }
}

proof fn lemma_trim_start_drop(s: Seq<char>, i: int)
    requires
        0 <= i <= s.len(),
        forall|j: int| 0 <= j < i ==> is_space(s[j]),
    ensures
        trim_start(s) == trim_start(s.subrange(i, s.len() as int)),
    decreases i,
{
    if i > 0 {
        assert(s.drop_first() =~= s.subrange(1, s.len() as int));
        lemma_trim_start_drop(s.drop_first(), i - 1);
        assert(s.drop_first().subrange(i - 1, s.drop_first().len() as int) =~= s.subrange(
            i,
            s.len() as int,
        ));
    } else {
        assert(s.subrange(0, s.len() as int) =~= s);
    }
}

proof fn lemma_trim_end_drop(s: Seq<char>, k: int)
    requires
        0 <= k <= s.len(),
        forall|j: int| k <= j < s.len() ==> is_space(s[j]),
    ensures
        trim_end(s) == trim_end(s.subrange(0, k)),
    decreases s.len() - k,
{
    if k < s.len() {
        assert(s.drop_last() =~= s.subrange(0, s.len() - 1));
        lemma_trim_end_drop(s.drop_last(), k);
        assert(s.drop_last().subrange(0, k) =~= s.subrange(0, k));
    } else {
        assert(s.subrange(0, k) =~= s);
    }
}

/// `s` with whitespace removed from both ends.
pub fn trim_chars(s: &[char]) -> (r: Vec<char>)
    ensures
        r@ == trim(s@),
{
    let mut a: usize = 0;
    while a < s.len() && is_space_char(s[a])
        invariant
            0 <= a <= s@.len(),
            forall|j: int| 0 <= j < a ==> is_space(s@[j]),
        decreases s@.len() - a,
    {
        a = a + 1;
    }
    let ghost t = s@.subrange(a as int, s@.len() as int);
    proof {
        lemma_trim_start_drop(s@, a as int);
        assert(t.len() == 0 || !is_space(t[0]));
        assert(trim_start(t) == t);
    }
    let mut b: usize = s.len();
    while b > a && is_space_char(s[b - 1])
        invariant
            a <= b <= s@.len(),
            forall|j: int| b <= j < s@.len() ==> is_space(s@[j]),
        decreases b,
    {
        b = b - 1;
    }
    proof {
        lemma_trim_end_drop(t, b - a);
        let u = t.subrange(0, b - a);
        assert(u =~= s@.subrange(a as int, b as int));
        assert(u.len() == 0 || !is_space(u.last()));
        assert(trim_end(u) == u);
    }
    slice(s, a, b)
}

/// The index of the first whitespace character of `s`, or its length.
pub open spec fn first_space(s: Seq<char>) -> int
    decreases s.len(),
{
    if s.len() == 0 {
        0
    } else if is_space(s[0]) {
        0
    } else {
        1 + first_space(s.drop_first())
    }
}

pub proof fn lemma_first_space(s: Seq<char>, k: int)
    requires
        0 <= k <= s.len(),
        forall|j: int| 0 <= j < k ==> !is_space(#[trigger] s[j]),
        k == s.len() || is_space(s[k]),
    ensures
        first_space(s) == k,
    decreases k,
{
    if k > 0 {
        assert forall|j: int| 0 <= j < k - 1 implies !is_space(#[trigger] s.drop_first()[j]) by {
            assert(s.drop_first()[j] == s[j + 1]);
        }
        lemma_first_space(s.drop_first(), k - 1);
    }
}

/// The index of the first whitespace character of `s` at or after `from`.
pub fn find_space(s: &[char], from: usize) -> (r: Option<usize>)
    requires
        from <= s@.len(),
    ensures
        r matches Some(i) ==> from <= i < s@.len() && is_space(s@[i as int]) && forall|j: int|
            from <= j < i ==> !is_space(#[trigger] s@[j]),
        r is None ==> forall|j: int| from <= j < s@.len() ==> !is_space(#[trigger] s@[j]),
{
    let mut i: usize = from;
    while i < s.len()
        invariant
            from <= i <= s@.len(),
            forall|j: int| from <= j < i ==> !is_space(#[trigger] s@[j]),
        decreases s@.len() - i,
    {
        if is_space_char(s[i]) {
            return Some(i);
        }
        i = i + 1;
    }
    None
}

proof fn lemma_next_newline(s: Seq<char>, i: int, k: int)
    requires
        0 <= i <= k <= s.len(),
        forall|j: int| i <= j < k ==> s[j] != '\n',
        k == s.len() || s[k] == '\n',
    ensures
        next_newline(s, i) == k,
    decreases k - i,
{
    if i < k {
        lemma_next_newline(s, i + 1, k);
    }
}

/// Splits `s` into its lines.
pub fn split_lines(s: &[char]) -> (r: Vec<Vec<char>>)
    ensures
        views(r@) == lines_of(s@),
{
    let mut out: Vec<Vec<char>> = Vec::new();
    let mut pos: usize = 0;
    let n = s.len();
    proof {
        assert(s@.subrange(0, n as int) =~= s@);
        assert(views(out@) + lines_of(s@) =~= lines_of(s@));
    }
    while pos < n
        invariant
            n == s@.len(),
            0 <= pos <= n,
            views(out@) + lines_of(s@.subrange(pos as int, n as int)) == lines_of(s@),
        decreases n - pos,
    {
        let ghost rest = s@.subrange(pos as int, n as int);
        let mut k: usize = pos;
        while k < n && s[k] != '\n'
            invariant
                n == s@.len(),
                pos <= k <= n,
                forall|j: int| pos <= j < k ==> s@[j] != '\n',
            decreases n - k,
        {
            k = k + 1;
        }
        proof {
            lemma_next_newline(rest, 0, k - pos);
        }
        let mut e: usize = k;
        if k < n && k > pos && s[k - 1] == '\r' {
            e = k - 1;
        }
        let line = slice(s, pos, e);
        let next: usize = if k >= n { n } else { k + 1 };
        let ghost old_out = out@;
        out.push(line);
        proof {
            assert(views(out@) =~= views(old_out).push(line@));
            if k >= n {
                assert(rest =~= s@.subrange(pos as int, k as int));
                assert(lines_of(rest) == seq![rest]);
                assert(lines_of(s@.subrange(n as int, n as int)) =~= seq![]);
            } else {
                assert(rest.subrange(0, k - pos) =~= s@.subrange(pos as int, k as int));
                assert(rest.subrange(k - pos + 1, rest.len() as int) =~= s@.subrange(
                    k + 1,
                    n as int,
                ));
                assert(strip_cr(s@.subrange(pos as int, k as int)) =~= line@);
            }
            assert(views(out@) + lines_of(s@.subrange(next as int, n as int)) =~= views(old_out)
                + lines_of(rest));
        }
        pos = next;
    }
    proof {
        assert(lines_of(s@.subrange(n as int, n as int)) =~= seq![]);
        assert(views(out@) + seq![] =~= views(out@));
    }
    out
}

/// The index of the first `c` in `s` at or after `i`, or the length of `s`.
pub open spec fn next_char(s: Seq<char>, c: char, i: int) -> int
    decreases s.len() - i,
{
    if i < 0 || i >= s.len() {
        s.len() as int
    } else if s[i] == c {
        i
    } else {
        next_char(s, c, i + 1)
    }
}

/// The fields of `s` separated by `sep` (one field when it holds none).
pub open spec fn fields_of(s: Seq<char>, sep: char) -> Seq<Seq<char>>
    decreases s.len(),
{
    let k = next_char(s, sep, 0);
    if k < 0 || k >= s.len() {
        seq![s]
    } else {
        seq![s.subrange(0, k)] + fields_of(s.subrange(k + 1, s.len() as int), sep)
    }
}

proof fn lemma_next_char(s: Seq<char>, c: char, i: int, k: int)
    requires
        0 <= i <= k <= s.len(),
        forall|j: int| i <= j < k ==> s[j] != c,
        k == s.len() || s[k] == c,
    ensures
        next_char(s, c, i) == k,
    decreases k - i,
{
    if i < k {
        lemma_next_char(s, c, i + 1, k);
    }
}

/// Splits `s` at each `sep`.
pub fn split_on(s: &[char], sep: char) -> (r: Vec<Vec<char>>)
    ensures
        views(r@) == fields_of(s@, sep),
{
    let mut out: Vec<Vec<char>> = Vec::new();
    let mut pos: usize = 0;
    let n = s.len();
    proof {
        assert(s@.subrange(0, n as int) =~= s@);
        assert(views(out@) + fields_of(s@, sep) =~= fields_of(s@, sep));
    }
    loop
        invariant
            n == s@.len(),
            0 <= pos <= n,
            views(out@) + fields_of(s@.subrange(pos as int, n as int), sep) == fields_of(s@, sep),
        decreases n - pos,
    {
        let ghost rest = s@.subrange(pos as int, n as int);
        let mut k: usize = pos;
        while k < n && s[k] != sep
            invariant
                n == s@.len(),
                pos <= k <= n,
                forall|j: int| pos <= j < k ==> s@[j] != sep,
            decreases n - k,
        {
            k = k + 1;
        }
        proof {
            lemma_next_char(rest, sep, 0, k - pos);
            assert(rest.subrange(0, k - pos) =~= s@.subrange(pos as int, k as int));
        }
        let field = slice(s, pos, k);
        let ghost old_out = out@;
        out.push(field);
        proof {
            assert(views(out@) =~= views(old_out).push(field@));
        }
        if k >= n {
            proof {
                assert(rest =~= s@.subrange(pos as int, k as int));
                assert(views(out@) =~= views(old_out) + fields_of(rest, sep));
            }
            return out;
        }
        proof {
            assert(rest.subrange(k - pos + 1, rest.len() as int) =~= s@.subrange(k + 1, n as int));
            assert(views(out@) + fields_of(s@.subrange(k + 1, n as int), sep) =~= views(old_out)
                + fields_of(rest, sep));
        }
        pos = k + 1;
    }
}

/// The value of a decimal numeral.
pub open spec fn numeral_value(s: Seq<char>) -> int
    decreases s.len(),
{
    if s.len() == 0 {
        0
    } else {
        numeral_value(s.drop_last()) * 10 + (s.last() as u32 - '0' as u32)
    }
}

pub open spec fn all_digits(s: Seq<char>) -> bool {
    forall|i: int| 0 <= i < s.len() ==> '0' <= #[trigger] s[i] <= '9'
}

/// What `u16::from_str` accepts: an optional `+`, then one or more ASCII
/// digits whose value fits in 16 bits.
pub open spec fn parse_u16_spec(s: Seq<char>) -> Option<u16> {
    let d = if s.len() > 0 && s[0] == '+' {
        s.drop_first()
    } else {
        s
    };
    if d.len() > 0 && all_digits(d) && numeral_value(d) < 65536 {
        Some(numeral_value(d) as u16)
    } else {
        None
    }
}

/// Parses a port number.
pub fn parse_u16(s: &[char]) -> (r: Option<u16>)
    ensures
        r == parse_u16_spec(s@),
{
    let mut i: usize = 0;
    if s.len() > 0 && s[0] == '+' {
        i = 1;
    }
    let ghost d = s@.subrange(i as int, s@.len() as int);
    proof {
        if i == 1 {
            assert(d =~= s@.drop_first());
        } else {
            assert(d =~= s@);
        }
    }
    if i >= s.len() {
        return None;
    }
    let mut v: u32 = 0;
    let start = i;
    while i < s.len()
        invariant
            start <= i <= s@.len(),
            d == s@.subrange(start as int, s@.len() as int),
            d == (if s@.len() > 0 && s@[0] == '+' {
                s@.drop_first()
            } else {
                s@
            }),
            all_digits(s@.subrange(start as int, i as int)),
            v == numeral_value(s@.subrange(start as int, i as int)),
            v < 65536,
        decreases s@.len() - i,
    {
        let c = s[i];
        if c < '0' || c > '9' {
            proof {
                assert(d[i - start] == c);
            }
            return None;
        }
        let nv = v * 10 + (c as u32 - '0' as u32);
        proof {
            let p = s@.subrange(start as int, i + 1);
            assert(p.drop_last() =~= s@.subrange(start as int, i as int));
            assert(p.last() == c);
            assert(all_digits(p));
            assert(numeral_value(p) == nv);
            assert(d.subrange(0, i + 1 - start) =~= p);
        }
        if nv >= 65536 {
            proof {
                lemma_numeral_grows(d, i + 1 - start);
            }
            return None;
        }
        v = nv;
        i = i + 1;
    }
    proof {
        assert(s@.subrange(start as int, i as int) =~= d);
    }
    Some(v as u16)
}

proof fn lemma_numeral_nonneg(d: Seq<char>)
    requires
        all_digits(d),
    ensures
        numeral_value(d) >= 0,
    decreases d.len(),
{
    if d.len() > 0 {
        assert(all_digits(d.drop_last()));
        lemma_numeral_nonneg(d.drop_last());
        assert('0' <= d.last() <= '9');
    }
}

proof fn lemma_numeral_grows(d: Seq<char>, k: int)
    requires
        0 < k <= d.len(),
        all_digits(d.subrange(0, k)),
    ensures
        all_digits(d) ==> numeral_value(d) >= numeral_value(d.subrange(0, k)),
    decreases d.len(),
{
    if all_digits(d) {
        if k < d.len() {
            assert(all_digits(d.drop_last()));
            assert(d.drop_last().subrange(0, k) =~= d.subrange(0, k));
            lemma_numeral_grows(d.drop_last(), k);
            lemma_numeral_nonneg(d.drop_last());
            let x = numeral_value(d.drop_last());
            assert(x * 10 >= x) by (nonlinear_arith)
                requires
                    x >= 0,
            ;
            assert('0' <= d.last() <= '9');
        } else {
            assert(d.subrange(0, k) =~= d);
        }
    }
}

/// The lines without those holding only `.`.
pub open spec fn without_dots(lines: Seq<Seq<char>>) -> Seq<Seq<char>>
    decreases lines.len(),
{
    if lines.len() == 0 {
        seq![]
    } else if lines[0] == seq!['.'] {
        without_dots(lines.drop_first())
    } else {
        seq![lines[0]] + without_dots(lines.drop_first())
    }
}

/// The lines without those holding only `.`.
pub fn drop_dots(lines: &Vec<Vec<char>>) -> (r: Vec<Vec<char>>)
    ensures
        views(r@) == without_dots(views(lines@)),
{
    let mut out: Vec<Vec<char>> = Vec::new();
    let n = lines.len();
    let mut i: usize = 0;
    let dot = ['.'];
    assert(dot@ =~= seq!['.']);
    proof {
        assert(views(lines@).subrange(0, n as int) =~= views(lines@));
        assert(views(out@) + without_dots(views(lines@)) =~= without_dots(views(lines@)));
    }
    while i < n
        invariant
            n == lines@.len(),
            dot@ == seq!['.'],
            0 <= i <= n,
            views(out@) + without_dots(views(lines@).subrange(i as int, n as int)) == without_dots(
                views(lines@),
            ),
        decreases n - i,
    {
        let ghost rest = views(lines@).subrange(i as int, n as int);
        proof {
            assert(rest.drop_first() =~= views(lines@).subrange(i + 1, n as int));
            assert(rest[0] == lines@[i as int]@);
        }
        if !eq_chars(lines[i].as_slice(), &dot) {
            let ghost before = out@;
            out.push(slice(lines[i].as_slice(), 0, lines[i].len()));
            proof {
                assert(lines@[i as int]@.subrange(0, lines@[i as int]@.len() as int) =~= lines@[i as int]@);
                assert(views(out@) =~= views(before) + seq![rest[0]]);
                assert(views(out@) + without_dots(rest.drop_first()) =~= views(before) + without_dots(rest));
            }
        }
        i = i + 1;
    }
    proof {
        assert(views(lines@).subrange(n as int, n as int) =~= Seq::<Seq<char>>::empty());
        assert(views(out@) + Seq::<Seq<char>>::empty() =~= views(out@));
    }
    out
}

/// Joins lines with `\n`.
pub fn join_line_vecs(ls: &Vec<Vec<char>>) -> (r: Vec<char>)
    ensures
        r@ == join_lines(views(ls@)),
{
    let mut out: Vec<char> = Vec::new();
    let n = ls.len();
    if n == 0 {
        return out;
    }
    let mut i: usize = n - 1;
    append(&mut out, ls[i].as_slice());
    proof {
        let tail = views(ls@).subrange(i as int, n as int);
        assert(tail.len() == 1);
        assert(join_lines(tail) == tail[0]);
        assert(out@ == join_lines(views(ls@).subrange(i as int, n as int)));
    }
    while i > 0
        invariant
            n == ls@.len(),
            0 <= i < n,
            out@ == join_lines(views(ls@).subrange(i as int, n as int)),
        decreases i,
    {
        i = i - 1;
        let mut v: Vec<char> = Vec::new();
        append(&mut v, ls[i].as_slice());
        v.push('\n');
        append(&mut v, out.as_slice());
        proof {
            let t = views(ls@).subrange(i as int, n as int);
            assert(t.drop_first() =~= views(ls@).subrange(i + 1, n as int));
            assert(t[0] == ls@[i as int]@);
            assert(v@ =~= t[0] + seq!['\n'] + join_lines(t.drop_first()));
        }
        out = v;
    }
    proof {
        assert(views(ls@).subrange(0, n as int) =~= views(ls@));
    }
    out
}

/// Appends the decimal digits of `n` to `v`.
pub fn push_decimal(v: &mut Vec<char>, n: u64)
    ensures
        final(v)@ == old(v)@ + decimal(n as nat),
    decreases n,
{
    if n >= 10 {
        push_decimal(v, n / 10);
    }
    let d = n % 10;
    let c = if d == 0 {
        '0'
    } else if d == 1 {
        '1'
    } else if d == 2 {
        '2'
    } else if d == 3 {
        '3'
    } else if d == 4 {
        '4'
    } else if d == 5 {
        '5'
    } else if d == 6 {
        '6'
    } else if d == 7 {
        '7'
    } else if d == 8 {
        '8'
    } else {
        '9'
    };
    v.push(c);
    proof {
        if n >= 10 {
            assert(final(v)@ =~= old(v)@ + decimal(n as nat));
        } else {
            assert(final(v)@ =~= old(v)@ + decimal(n as nat));
        }
    }
}

} // verus!
