//! Character-level text operations: equality, whitespace tokens, a byte-wise
//! (code point) ordering, and lowercase hexadecimal rendering.
use vstd::prelude::*;
use vstd::string::StrSliceExecFns;
use vstd::string::StringExecFns;

verus! {

/// Whether `c` has Unicode's White_Space property: the characters that
/// separate the fields of a listing line.
pub open spec fn white_space(c: char) -> bool {
    let v = c as int;
    ||| 0x09 <= v <= 0x0d
    ||| v == 0x20
    ||| v == 0x85
    ||| v == 0xa0
    ||| v == 0x1680
    ||| 0x2000 <= v <= 0x200a
    ||| v == 0x2028
    ||| v == 0x2029
    ||| v == 0x202f
    ||| v == 0x205f
    ||| v == 0x3000
}

/// Decides `white_space`.
pub fn is_white_space(c: char) -> (r: bool)
    ensures
        r == white_space(c),
{
    let v = c as u32;
    (0x09 <= v && v <= 0x0d) || v == 0x20 || v == 0x85 || v == 0xa0 || v == 0x1680 || (0x2000 <= v
        && v <= 0x200a) || v == 0x2028 || v == 0x2029 || v == 0x202f || v == 0x205f || v == 0x3000
}

/// Whether two texts hold the same characters.
pub fn text_eq(a: &str, b: &str) -> (r: bool)
    ensures
        r == (a@ == b@),
{
    let n = a.unicode_len();
    if n != b.unicode_len() {
        return false;
    }
    let mut i: usize = 0;
    while i < n
        invariant
            n == a@.len(),
            n == b@.len(),
            i <= n,
            forall|k: int| 0 <= k < i ==> a@[k] == b@[k],
        decreases n - i,
    {
        if a.get_char(i) != b.get_char(i) {
            return false;
        }
        i = i + 1;
    }
    assert(a@ =~= b@);
    true
}

/// The maximal runs of non-whitespace characters of `s`, in order.
pub open spec fn tokens(s: Seq<char>) -> Seq<Seq<char>>
    decreases s.len(),
{
    if s.len() == 0 {
        seq![]
    } else {
        let prev = tokens(s.drop_last());
        let c = s.last();
        if white_space(c) {
            prev
        } else if s.len() > 1 && !white_space(s[s.len() - 2]) {
            prev.drop_last().push(prev.last().push(c))
        } else {
            prev.push(seq![c])
        }
    }
}

/// The characters of each string.
pub open spec fn views(v: Seq<String>) -> Seq<Seq<char>> {
    v.map_values(|t: String| t@)
}

/// Splits `s` into its whitespace-separated tokens.
pub fn split_tokens(s: &str) -> (r: Vec<String>)
    ensures
        views(r@) == tokens(s@),
{
    let n = s.unicode_len();
    let mut out: Vec<String> = Vec::new();
    let mut start: usize = 0;
    let mut in_token = false;
    let mut i: usize = 0;
    assert(s@.subrange(0, 0) =~= Seq::<char>::empty());
    assert(views(out@) =~= Seq::<Seq<char>>::empty());
    while i < n
        invariant
            n == s@.len(),
            start <= i <= n,
            in_token ==> start < i,
            in_token ==> forall|k: int| start <= k < i ==> !white_space(#[trigger] s@[k]),
            !in_token && i > 0 ==> white_space(s@[i - 1]),
            tokens(s@.subrange(0, i as int)) == (if in_token {
                views(out@).push(s@.subrange(start as int, i as int))
            } else {
                views(out@)
            }),
        decreases n - i,
    {
        let c = s.get_char(i);
        let ghost before = s@.subrange(0, i as int);
        let ghost after = s@.subrange(0, i + 1);
        assert(after.drop_last() =~= before);
        assert(after.last() == c);
        if is_white_space(c) {
            if in_token {
                let t = s.substring_char(start, i).to_owned();
                let ghost old_out = out@;
                out.push(t);
                assert(views(out@) =~= views(old_out).push(s@.subrange(start as int, i as int)));
                in_token = false;
            }
        } else {
            if in_token {
                assert(!white_space(after[after.len() - 2]));
                assert(s@.subrange(start as int, i as int).push(c) =~= s@.subrange(
                    start as int,
                    i + 1,
                ));
                assert(views(out@).push(s@.subrange(start as int, i as int)).drop_last() =~= views(
                    out@,
                ));
            } else {
                start = i;
                in_token = true;
                assert(s@.subrange(start as int, i + 1) =~= seq![c]);
            }
        }
        i = i + 1;
    }
    assert(s@.subrange(0, n as int) =~= s@);
    if in_token {
        let t = s.substring_char(start, n).to_owned();
        let ghost old_out = out@;
        out.push(t);
        assert(views(out@) =~= views(old_out).push(s@.subrange(start as int, n as int)));
    }
    out
}

/// Lexicographic order of texts by code point, which is the byte-wise order
/// of their UTF-8 encodings.
pub open spec fn text_le(a: Seq<char>, b: Seq<char>) -> bool
    decreases a.len(),
{
    if a.len() == 0 {
        true
    } else if b.len() == 0 {
        false
    } else if a[0] != b[0] {
        (a[0] as int) < (b[0] as int)
    } else {
        text_le(a.drop_first(), b.drop_first())
    }
}

pub proof fn lemma_text_le_reflexive(a: Seq<char>)
    ensures
        text_le(a, a),
    decreases a.len(),
{
    if a.len() > 0 {
        lemma_text_le_reflexive(a.drop_first());
    }
}

pub proof fn lemma_text_le_antisymmetric(a: Seq<char>, b: Seq<char>)
    requires
        text_le(a, b),
        text_le(b, a),
    ensures
        a == b,
    decreases a.len(),
{
    if a.len() > 0 && b.len() > 0 && a[0] == b[0] {
        lemma_text_le_antisymmetric(a.drop_first(), b.drop_first());
        assert(a =~= seq![a[0]] + a.drop_first());
        assert(b =~= seq![b[0]] + b.drop_first());
    }
    if a.len() == 0 && b.len() == 0 {
        assert(a =~= b);
    }
}

pub proof fn lemma_text_le_transitive(a: Seq<char>, b: Seq<char>, c: Seq<char>)
    requires
        text_le(a, b),
        text_le(b, c),
    ensures
        text_le(a, c),
    decreases a.len(),
{
    if a.len() > 0 && b.len() > 0 && c.len() > 0 && a[0] == b[0] && b[0] == c[0] {
        lemma_text_le_transitive(a.drop_first(), b.drop_first(), c.drop_first());
    }
}

pub proof fn lemma_text_le_total(a: Seq<char>, b: Seq<char>)
    ensures
        text_le(a, b) || text_le(b, a),
    decreases a.len(),
{
    if a.len() > 0 && b.len() > 0 && a[0] == b[0] {
        lemma_text_le_total(a.drop_first(), b.drop_first());
    }
    if a.len() > 0 && b.len() > 0 && a[0] != b[0] {
        assert((a[0] as int) != (b[0] as int));
    }
}

/// Decides `text_le` on two texts.
pub fn text_le_exec(a: &str, b: &str) -> (r: bool)
    ensures
        r == text_le(a@, b@),
{
    let n = a.unicode_len();
    let m = b.unicode_len();
    let mut i: usize = 0;
    assert(a@.subrange(0, n as int) =~= a@);
    assert(b@.subrange(0, m as int) =~= b@);
    while i < n && i < m
        invariant
            n == a@.len(),
            m == b@.len(),
            i <= n,
            i <= m,
            text_le(a@, b@) == text_le(a@.subrange(i as int, n as int), b@.subrange(i as int, m as int)),
        decreases n - i,
    {
        let x = a.get_char(i);
        let y = b.get_char(i);
        let ghost ra = a@.subrange(i as int, n as int);
        let ghost rb = b@.subrange(i as int, m as int);
        assert(ra[0] == x && rb[0] == y);
        if x != y {
            return (x as u32) < (y as u32);
        }
        assert(ra.drop_first() =~= a@.subrange(i + 1, n as int));
        assert(rb.drop_first() =~= b@.subrange(i + 1, m as int));
        i = i + 1;
    }
    i == n
}

/// The lowercase hexadecimal digit of value `n` (below sixteen).
pub open spec fn hex_digit(n: int) -> char {
    "0123456789abcdef"@[n]
}

/// Two lowercase hexadecimal digits per byte, most significant first, no separator.
pub open spec fn hex_text(b: Seq<u8>) -> Seq<char>
    decreases b.len(),
{
    if b.len() == 0 {
        seq![]
    } else {
        hex_text(b.drop_last()) + seq![hex_digit(b.last() as int / 16), hex_digit(b.last() as int % 16)]
    }
}

pub proof fn lemma_hex_text_len(b: Seq<u8>)
    ensures
        hex_text(b).len() == 2 * b.len(),
    decreases b.len(),
{
    if b.len() > 0 {
        lemma_hex_text_len(b.drop_last());
    }
}

fn hex_digit_text(n: u8) -> (r: &'static str)
    requires
        n < 16,
    ensures
        r@ == seq![hex_digit(n as int)],
{
    let digits = "0123456789abcdef";
    proof {
        reveal_strlit("0123456789abcdef");
    }
    let r = digits.substring_char(n as usize, n as usize + 1);
    assert(r@ =~= seq![hex_digit(n as int)]);
    r
}

/// Renders bytes as lowercase hexadecimal text.
pub fn to_hex(b: &[u8]) -> (r: String)
    ensures
        r@ == hex_text(b@),
        r@.len() == 2 * b@.len(),
{
    let mut out = String::new();
    let mut i: usize = 0;
    assert(b@.subrange(0, 0) =~= Seq::<u8>::empty());
    while i < b.len()
        invariant
            i <= b@.len(),
            out@ == hex_text(b@.subrange(0, i as int)),
        decreases b@.len() - i,
    {
        let byte = b[i];
        assert(b@.subrange(0, i + 1).drop_last() =~= b@.subrange(0, i as int));
        out.append(hex_digit_text(byte / 16));
        out.append(hex_digit_text(byte % 16));
        assert(out@ =~= hex_text(b@.subrange(0, i + 1)));
        i = i + 1;
    }
    assert(b@.subrange(0, b@.len() as int) =~= b@);
    proof {
        lemma_hex_text_len(b@);
    }
    out
}

} // verus!
