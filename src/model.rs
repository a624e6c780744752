//! The mathematical model of the encoding: which lengths fit, how content is laid out in
//! the byte array, how the length is read back from the last byte, and the byte order.
use crate::{FIXED_ABBR, SLIM_ABBR, TAG, TRIM_ABBR, VAR_ABBR};
use core::cmp::Ordering;
use vstd::prelude::*;
use vstd::utf8::{is_continuation_byte, is_leading_byte_width_1, valid_utf8, valid_utf8_last};

verus! {

/// The legal combinations of a kind's abbreviation, a capacity and a number of length bytes:
/// [`crate::Var`] keeps one length byte and holds up to 255 bytes; the other kinds keep
/// none and hold up to 64 bytes, the most that the six low bits of a tag can count.
pub open spec fn legal_config(abbr: u8, size: int, len: int) -> bool {
    ||| abbr == FIXED_ABBR && len == 0 && 0 <= size <= 64
    ||| abbr == VAR_ABBR && len == 1 && 0 <= size <= 255
    ||| abbr == TRIM_ABBR && len == 0 && 0 <= size <= 64
    ||| abbr == SLIM_ABBR && len == 0 && 0 <= size <= 64
}

/// Whether content of `n` bytes can be stored by the kind `abbr` at capacity `size`:
/// exactly `size` for [`crate::Fixed`], `size` or `size - 1` for [`crate::Trim`], at most
/// `size` otherwise.
pub open spec fn fits_len(abbr: u8, size: int, n: int) -> bool {
    if abbr == FIXED_ABBR {
        n == size
    } else if abbr == TRIM_ABBR {
        n == size || n + 1 == size
    } else {
        0 <= n <= size
    }
}

/// The byte written on every unused position when `tail` positions are unused.
pub open spec fn fill_byte(tail: int) -> u8 {
    (TAG + tail % 64) as u8
}

/// The byte array that holds `content` at capacity `size`: the content, then the
/// unused tail, every byte of it the same tag.
pub open spec fn encode(size: int, content: Seq<u8>) -> Seq<u8> {
    let tail = size - content.len();
    content + Seq::new(tail as nat, |i: int| fill_byte(tail))
}

/// The length of the unused tail that a last byte stands for: none where it can end
/// valid UTF-8 text, else its six low bits, with zero standing for 64.
pub open spec fn tail_len(last: u8) -> int {
    if last < TAG {
        0
    } else if last == TAG {
        64
    } else {
        last - TAG
    }
}

/// Lexicographic order of two byte sequences.
pub open spec fn lex_order(a: Seq<u8>, b: Seq<u8>) -> Ordering
    decreases a.len(),
{
    if a.len() == 0 {
        if b.len() == 0 {
            Ordering::Equal
        } else {
            Ordering::Less
        }
    } else if b.len() == 0 {
        Ordering::Greater
    } else if a[0] < b[0] {
        Ordering::Less
    } else if a[0] > b[0] {
        Ordering::Greater
    } else {
        lex_order(a.drop_first(), b.drop_first())
    }
}

/// The name of a stringlet type: its alias and its capacity, as in `VarStringlet<12>`.
pub open spec fn type_label_of(abbr: u8, size: nat) -> Seq<char> {
    let name = if abbr == FIXED_ABBR {
        "Stringlet"@
    } else if abbr == VAR_ABBR {
        "VarStringlet"@
    } else if abbr == TRIM_ABBR {
        "TrimStringlet"@
    } else {
        "SlimStringlet"@
    };
    name + seq!['<'] + decimal(size) + seq!['>']
}

/// The decimal digits of `n`.
pub open spec fn decimal(n: nat) -> Seq<char>
    decreases n,
{
    if n < 10 {
        seq![digit_char(n)]
    } else {
        decimal(n / 10) + seq![digit_char(n % 10)]
    }
}

/// The character of a decimal digit.
pub open spec fn digit_char(d: nat) -> char {
    if d == 0 {
        '0'
    } else if d == 1 {
        '1'
    } else if d == 2 {
        '2'
    } else if d == 3 {
        '3'
    } else if d == 4 {
        '4'
    } else if d == 5 {
        '5'
    } else if d == 6 {
        '6'
    } else if d == 7 {
        '7'
    } else if d == 8 {
        '8'
    } else {
        '9'
    }
}

/// The reverse of an ordering.
pub open spec fn reversed(o: Ordering) -> Ordering {
    match o {
        Ordering::Less => Ordering::Greater,
        Ordering::Equal => Ordering::Equal,
        Ordering::Greater => Ordering::Less,
    }
}

/// The last byte of non-empty valid UTF-8 text is below the tag.
pub proof fn lemma_last_below_tag(c: Seq<u8>)
    requires
        valid_utf8(c),
        c.len() > 0,
    ensures
        c[c.len() - 1] < TAG,
{
    valid_utf8_last(c);
    assert(is_continuation_byte(c.last()) || is_leading_byte_width_1(c.last()));
}

/// Every filler byte carries the tag.
pub proof fn lemma_fill_tagged(tail: int)
    ensures
        fill_byte(tail) >= TAG,
        1 <= tail < 64 ==> tail_len(fill_byte(tail)) == tail,
        tail == 64 ==> tail_len(fill_byte(tail)) == 64,
{
}

/// Reading the last byte of an encoding gives back the content length, at every capacity
/// up to 64.
pub proof fn lemma_decode_len(size: int, c: Seq<u8>)
    requires
        valid_utf8(c),
        c.len() <= size <= 64,
        0 < size,
    ensures
        encode(size, c).len() == size,
        size - tail_len(encode(size, c)[size - 1]) == c.len(),
{
    let e = encode(size, c);
    if c.len() == size {
        lemma_last_below_tag(c);
        assert(e[size - 1] == c[size - 1]);
    } else {
        lemma_fill_tagged(size - c.len());
        assert(e[size - 1] == fill_byte(size - c.len()));
    }
}

/// Two valid contents with the same encoding at one capacity are the same.
pub proof fn lemma_encode_injective(size: int, c1: Seq<u8>, c2: Seq<u8>)
    requires
        valid_utf8(c1),
        valid_utf8(c2),
        c1.len() <= size,
        c2.len() <= size,
    ensures
        (encode(size, c1) == encode(size, c2)) <==> (c1 == c2),
{
    if encode(size, c1) == encode(size, c2) {
        if c1.len() < c2.len() {
            lemma_encode_injective_short(size, c1, c2);
        } else if c2.len() < c1.len() {
            lemma_encode_injective_short(size, c2, c1);
        }
        assert(c1 =~= encode(size, c1).subrange(0, c1.len() as int));
        assert(c2 =~= encode(size, c2).subrange(0, c2.len() as int));
    }
}

proof fn lemma_encode_injective_short(size: int, c1: Seq<u8>, c2: Seq<u8>)
    requires
        valid_utf8(c2),
        c1.len() < c2.len() <= size,
    ensures
        encode(size, c1) != encode(size, c2),
{
    let i = c2.len() - 1;
    lemma_last_below_tag(c2);
    lemma_fill_tagged(size - c1.len());
    assert(encode(size, c1)[i] == fill_byte(size - c1.len()));
    assert(encode(size, c2)[i] == c2[i]);
}

/// Lexicographic order is `Equal` exactly on equal sequences.
pub proof fn lemma_lex_equal(a: Seq<u8>, b: Seq<u8>)
    ensures
        (lex_order(a, b) == Ordering::Equal) <==> (a == b),
    decreases a.len(),
{
    if a.len() > 0 && b.len() > 0 && a[0] == b[0] {
        lemma_lex_equal(a.drop_first(), b.drop_first());
        if a.drop_first() == b.drop_first() {
            assert(a =~= seq![a[0]] + a.drop_first());
            assert(b =~= seq![b[0]] + b.drop_first());
        }
    } else if a.len() == 0 && b.len() == 0 {
        assert(a =~= b);
    }
}

/// Swapping the operands reverses lexicographic order.
pub proof fn lemma_lex_reverse(a: Seq<u8>, b: Seq<u8>)
    ensures
        lex_order(b, a) == reversed(lex_order(a, b)),
    decreases a.len(),
{
    if a.len() > 0 && b.len() > 0 && a[0] == b[0] {
        lemma_lex_reverse(a.drop_first(), b.drop_first());
    }
}

/// Lexicographic order is transitive.
pub proof fn lemma_lex_transitive(a: Seq<u8>, b: Seq<u8>, c: Seq<u8>, o: Ordering)
    requires
        o != Ordering::Equal,
        lex_order(a, b) == o,
        lex_order(b, c) == o,
    ensures
        lex_order(a, c) == o,
    decreases a.len(),
{
    if a.len() > 0 && b.len() > 0 && c.len() > 0 && a[0] == b[0] && b[0] == c[0] {
        lemma_lex_transitive(a.drop_first(), b.drop_first(), c.drop_first(), o);
    }
}

/// Comparing from position `i` on, after an equal byte there, is comparing from `i + 1`.
pub proof fn lemma_lex_step(a: Seq<u8>, b: Seq<u8>, i: int)
    requires
        0 <= i < a.len(),
        i < b.len(),
        a[i] == b[i],
    ensures
        lex_order(a.subrange(i, a.len() as int), b.subrange(i, b.len() as int)) == lex_order(
            a.subrange(i + 1, a.len() as int),
            b.subrange(i + 1, b.len() as int),
        ),
{
    assert(a.subrange(i, a.len() as int).drop_first() =~= a.subrange(i + 1, a.len() as int));
    assert(b.subrange(i, b.len() as int).drop_first() =~= b.subrange(i + 1, b.len() as int));
}

} // verus!
