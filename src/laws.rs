//! Laws of the encoding and of comparison, proved over the model.
use crate::model::{
    lemma_decode_len, lemma_fill_tagged, lemma_last_below_tag, lemma_lex_equal, lemma_lex_reverse,
    lemma_lex_transitive, reversed,
};
use crate::{
    encode, fill_byte, fits_len, legal_config, lex_order, tail_len, ConfigBase, StringletBase,
    StringletKind, SLIM_ABBR, TAG, TRIM_ABBR,
};
use core::cmp::Ordering;
use vstd::prelude::*;
use vstd::std_specs::cmp::{PartialEqSpec, PartialOrdSpec};
use vstd::utf8::valid_utf8;

verus! {

/// Storing valid content that fits a legal configuration and reading it back gives the
/// content: the array holds it at its front, and for the kinds without a length byte the
/// last byte tells its length.
pub proof fn law_round_trip(abbr: u8, size: int, len: int, c: Seq<u8>)
    requires
        legal_config(abbr, size, len),
        fits_len(abbr, size, c.len() as int),
        valid_utf8(c),
    ensures
        encode(size, c).len() == size,
        encode(size, c).subrange(0, c.len() as int) == c,
        (abbr == TRIM_ABBR || abbr == SLIM_ABBR) && size > 0 ==> size - tail_len(
            encode(size, c)[size - 1],
        ) == c.len(),
{
    assert(encode(size, c).subrange(0, c.len() as int) =~= c);
    if (abbr == TRIM_ABBR || abbr == SLIM_ABBR) && size > 0 {
        lemma_decode_len(size, c);
    }
}

/// The last byte of an encoding carries the tag exactly when the content is shorter than
/// the capacity: content never passes for a tag, nor a tag for content, at any capacity.
pub proof fn law_tag_safety(size: int, c: Seq<u8>)
    requires
        valid_utf8(c),
        c.len() <= size,
        0 < size,
    ensures
        (encode(size, c)[size - 1] >= TAG) <==> (c.len() < size),
        c.len() > 0 ==> c[c.len() - 1] < TAG,
        forall|i: int| c.len() <= i < size ==> #[trigger] encode(size, c)[i] >= TAG,
{
    lemma_fill_tagged(size - c.len());
    if c.len() > 0 {
        lemma_last_below_tag(c);
    }
    if c.len() == size {
        assert(encode(size, c)[size - 1] == c[size - 1]);
    }
}

/// Equality of stringlets is reflexive, symmetric and transitive, whatever their kinds
/// and capacities.
pub proof fn law_eq_equivalence<
    K1: StringletKind,
    const S1: usize,
    const L1: usize,
    K2: StringletKind,
    const S2: usize,
    const L2: usize,
    K3: StringletKind,
    const S3: usize,
    const L3: usize,
>(a: StringletBase<K1, S1, L1>, b: StringletBase<K2, S2, L2>, c: StringletBase<K3, S3, L3>) where
    StringletBase<K1, S1, L1>: ConfigBase<K1, S1, L1>,
    StringletBase<K2, S2, L2>: ConfigBase<K2, S2, L2>,
    StringletBase<K3, S3, L3>: ConfigBase<K3, S3, L3>,

    ensures
        a.eq_spec(&a),
        a.eq_spec(&b) == b.eq_spec(&a),
        a.eq_spec(&b) && b.eq_spec(&c) ==> a.eq_spec(&c),
{
}

/// Comparing two stringlets gives exactly one of less, equal and greater: the
/// lexicographic order of their content bytes, `Equal` exactly when they are equal, and
/// the reverse when the operands are swapped.
pub proof fn law_order_consistent<
    K1: StringletKind,
    const S1: usize,
    const L1: usize,
    K2: StringletKind,
    const S2: usize,
    const L2: usize,
>(a: StringletBase<K1, S1, L1>, b: StringletBase<K2, S2, L2>) where
    StringletBase<K1, S1, L1>: ConfigBase<K1, S1, L1>,
    StringletBase<K2, S2, L2>: ConfigBase<K2, S2, L2>,

    ensures
        a.partial_cmp_spec(&b) == Some(lex_order(a@, b@)),
        (lex_order(a@, b@) == Ordering::Equal) <==> a.eq_spec(&b),
        b.partial_cmp_spec(&a) == Some(reversed(lex_order(a@, b@))),
{
    lemma_lex_equal(a@, b@);
    lemma_lex_reverse(a@, b@);
}

/// The order of stringlets is transitive.
pub proof fn law_order_transitive<
    K1: StringletKind,
    const S1: usize,
    const L1: usize,
    K2: StringletKind,
    const S2: usize,
    const L2: usize,
    K3: StringletKind,
    const S3: usize,
    const L3: usize,
>(a: StringletBase<K1, S1, L1>, b: StringletBase<K2, S2, L2>, c: StringletBase<K3, S3, L3>) where
    StringletBase<K1, S1, L1>: ConfigBase<K1, S1, L1>,
    StringletBase<K2, S2, L2>: ConfigBase<K2, S2, L2>,
    StringletBase<K3, S3, L3>: ConfigBase<K3, S3, L3>,

    ensures
        a.partial_cmp_spec(&b) == Some(Ordering::Less) && b.partial_cmp_spec(&c) == Some(
            Ordering::Less,
        ) ==> a.partial_cmp_spec(&c) == Some(Ordering::Less),
{
    if lex_order(a@, b@) == Ordering::Less && lex_order(b@, c@) == Ordering::Less {
        lemma_lex_transitive(a@, b@, c@, Ordering::Less);
    }
}

/// At capacity 0 every legal configuration holds the empty content only.
pub proof fn law_capacity_zero(abbr: u8, len: int, n: int)
    requires
        legal_config(abbr, 0, len),
        0 <= n,
    ensures
        fits_len(abbr, 0, n) <==> n == 0,
{
}

/// At capacity 64 the last byte of the empty content is the bare tag, read as 64 unused
/// bytes, while full content ends in a byte read as none unused: the two are told apart.
pub proof fn law_capacity_64(c: Seq<u8>)
    requires
        valid_utf8(c),
        c.len() <= 64,
    ensures
        encode(64, Seq::<u8>::empty())[63] == TAG,
        tail_len(TAG) == 64,
        64 - tail_len(encode(64, c)[63]) == c.len(),
{
    lemma_decode_len(64, c);
    assert(encode(64, Seq::<u8>::empty())[63] == fill_byte(64));
}

} // verus!
