//! Equality and order, also across kinds and capacities, and against text.
use crate::model::{lemma_encode_injective, lemma_lex_step};
use crate::{lex_order, ConfigBase, StringletBase, StringletKind, FIXED_ABBR, TRIM_ABBR};
use core::cmp::Ordering;
use vstd::prelude::*;
use vstd::std_specs::cmp::{PartialEqSpecImpl, PartialOrdSpecImpl};
use vstd::string::StringSliceAdditionalSpecFns;
use vstd::utf8::encode_utf8;

verus! {

/// Whether two byte slices hold the same bytes.
fn bytes_eq(a: &[u8], b: &[u8]) -> (r: bool)
    ensures
        r == (a@ == b@),
{
    if a.len() != b.len() {
        return false;
    }
    let mut i: usize = 0;
    while i < a.len()
        invariant
            0 <= i <= a@.len(),
            a@.len() == b@.len(),
            forall|j: int| 0 <= j < i ==> a@[j] == b@[j],
        decreases a@.len() - i,
    {
        if a[i] != b[i] {
            return false;
        }
        i += 1;
    }
    assert(a@ =~= b@);
    true
}

/// Lexicographic comparison of two byte slices.
fn bytes_cmp(a: &[u8], b: &[u8]) -> (r: Ordering)
    ensures
        r == lex_order(a@, b@),
{
    let mut i: usize = 0;
    assert(a@.subrange(0, a@.len() as int) =~= a@);
    assert(b@.subrange(0, b@.len() as int) =~= b@);
    while i < a.len() && i < b.len()
        invariant
            0 <= i <= a@.len(),
            i <= b@.len(),
            lex_order(a@, b@) == lex_order(
                a@.subrange(i as int, a@.len() as int),
                b@.subrange(i as int, b@.len() as int),
            ),
        decreases a@.len() - i,
    {
        if a[i] < b[i] {
            return Ordering::Less;
        } else if a[i] > b[i] {
            return Ordering::Greater;
        }
        proof {
            lemma_lex_step(a@, b@, i as int);
        }
        i += 1;
    }
    if a.len() == b.len() {
        Ordering::Equal
    } else if i == a.len() {
        Ordering::Less
    } else {
        Ordering::Greater
    }
}

impl<
    Kind: StringletKind,
    const SIZE: usize,
    const LEN: usize,
    Kind2: StringletKind,
    const SIZE2: usize,
    const LEN2: usize,
> PartialEq<StringletBase<Kind2, SIZE2, LEN2>> for StringletBase<Kind, SIZE, LEN> where
    Self: ConfigBase<Kind, SIZE, LEN>,
    StringletBase<Kind2, SIZE2, LEN2>: ConfigBase<Kind2, SIZE2, LEN2>,
 {
    /// Decides by capacity and kind alone wherever they rule out equal content, compares
    /// whole arrays where both have the same capacity, and reads a length only otherwise.
    fn eq(&self, other: &StringletBase<Kind2, SIZE2, LEN2>) -> (r: bool)
        ensures
            r == (self@ == other@),
            SIZE == SIZE2 ==> r == (self.buffer() == other.buffer()),
    {
        proof {
            use_type_invariant(self);
            use_type_invariant(other);
            <Self as ConfigBase<Kind, SIZE, LEN>>::lemma_legal();
            <StringletBase<Kind2, SIZE2, LEN2> as ConfigBase<Kind2, SIZE2, LEN2>>::lemma_legal();
        }
        let fixed = Kind::ABBR == FIXED_ABBR;
        let fixed2 = Kind2::ABBR == FIXED_ABBR;
        let trim = Kind::ABBR == TRIM_ABBR;
        let trim2 = Kind2::ABBR == TRIM_ABBR;
        if SIZE == SIZE2 {
            // At one capacity every kind lays equal content out as equal bytes.
            proof {
                lemma_encode_injective(SIZE as int, self@, other@);
            }
            SIZE == 0 || bytes_eq(self.str.as_slice(), other.str.as_slice())
        } else if fixed && fixed2 {
            false
        } else if fixed && trim2 {
            proof {
                assert(self.str@ =~= self@);
            }
            SIZE + 1 == SIZE2 && bytes_eq(self.str.as_slice(), other.as_bytes())
        } else if trim && fixed2 {
            proof {
                assert(other.str@ =~= other@);
            }
            SIZE == SIZE2 + 1 && bytes_eq(self.as_bytes(), other.str.as_slice())
        } else if fixed {
            // A fixed one is only equal to a longer variable one.
            proof {
                assert(self.str@ =~= self@);
            }
            SIZE < SIZE2 && bytes_eq(self.str.as_slice(), other.as_bytes())
        } else if fixed2 {
            proof {
                assert(other.str@ =~= other@);
            }
            SIZE > SIZE2 && bytes_eq(self.as_bytes(), other.str.as_slice())
        } else if trim {
            // A trimmed one is at most one byte shorter than its capacity.
            (SIZE < SIZE2 || SIZE == SIZE2 + 1) && bytes_eq(self.as_bytes(), other.as_bytes())
        } else if trim2 {
            (SIZE > SIZE2 || SIZE + 1 == SIZE2) && bytes_eq(self.as_bytes(), other.as_bytes())
        } else {
            bytes_eq(self.as_bytes(), other.as_bytes())
        }
    }
}

impl<
    Kind: StringletKind,
    const SIZE: usize,
    const LEN: usize,
    Kind2: StringletKind,
    const SIZE2: usize,
    const LEN2: usize,
> PartialEqSpecImpl<StringletBase<Kind2, SIZE2, LEN2>> for StringletBase<Kind, SIZE, LEN> where
    Self: ConfigBase<Kind, SIZE, LEN>,
    StringletBase<Kind2, SIZE2, LEN2>: ConfigBase<Kind2, SIZE2, LEN2>,
 {
    open spec fn obeys_eq_spec() -> bool {
        true
    }

    open spec fn eq_spec(&self, other: &StringletBase<Kind2, SIZE2, LEN2>) -> bool {
        self@ == other@
    }
}

impl<Kind: StringletKind, const SIZE: usize, const LEN: usize> Eq for StringletBase<
    Kind,
    SIZE,
    LEN,
> where Self: ConfigBase<Kind, SIZE, LEN> {

}

impl<
    'a,
    Kind: StringletKind,
    const SIZE: usize,
    const LEN: usize,
    Kind2: StringletKind,
    const SIZE2: usize,
    const LEN2: usize,
> PartialEq<&'a StringletBase<Kind2, SIZE2, LEN2>> for StringletBase<Kind, SIZE, LEN> where
    Self: ConfigBase<Kind, SIZE, LEN>,
    StringletBase<Kind2, SIZE2, LEN2>: ConfigBase<Kind2, SIZE2, LEN2>,
 {
    fn eq(&self, other: &&'a StringletBase<Kind2, SIZE2, LEN2>) -> (r: bool)
        ensures
            r == (self@ == other@),
    {
        self.eq(*other)
    }
}

impl<
    'a,
    Kind: StringletKind,
    const SIZE: usize,
    const LEN: usize,
    Kind2: StringletKind,
    const SIZE2: usize,
    const LEN2: usize,
> PartialEqSpecImpl<&'a StringletBase<Kind2, SIZE2, LEN2>> for StringletBase<Kind, SIZE, LEN> where
    Self: ConfigBase<Kind, SIZE, LEN>,
    StringletBase<Kind2, SIZE2, LEN2>: ConfigBase<Kind2, SIZE2, LEN2>,
 {
    open spec fn obeys_eq_spec() -> bool {
        true
    }

    open spec fn eq_spec(&self, other: &&'a StringletBase<Kind2, SIZE2, LEN2>) -> bool {
        self@ == other@
    }
}

impl<Kind: StringletKind, const SIZE: usize, const LEN: usize> PartialEq<str> for StringletBase<Kind, SIZE, LEN> where
    Self: ConfigBase<Kind, SIZE, LEN>,
 {
    fn eq(&self, other: &str) -> (r: bool)
        ensures
            r == (self@ == other.spec_bytes()),
    {
        proof {
            use_type_invariant(self);
        }
        if SIZE == 0 {
            let n = other.as_bytes().len();
            proof {
                assert(self@ =~= Seq::<u8>::empty());
                if n == 0 {
                    assert(other.spec_bytes() =~= self@);
                }
            }
            n == 0
        } else if Kind::ABBR == FIXED_ABBR {
            proof {
                assert(self.str@ =~= self@);
            }
            bytes_eq(self.str.as_slice(), other.as_bytes())
        } else {
            bytes_eq(self.as_bytes(), other.as_bytes())
        }
    }
}

impl<Kind: StringletKind, const SIZE: usize, const LEN: usize> PartialEqSpecImpl<str> for StringletBase<Kind, SIZE, LEN> where
    Self: ConfigBase<Kind, SIZE, LEN>,
 {
    open spec fn obeys_eq_spec() -> bool {
        true
    }

    open spec fn eq_spec(&self, other: &str) -> bool {
        self@ == other.spec_bytes()
    }
}

impl<'a, Kind: StringletKind, const SIZE: usize, const LEN: usize> PartialEq<&'a str> for StringletBase<Kind, SIZE, LEN> where
    Self: ConfigBase<Kind, SIZE, LEN>,
 {
    fn eq(&self, other: &&'a str) -> (r: bool)
        ensures
            r == (self@ == other.spec_bytes()),
    {
        self.eq(*other)
    }
}

impl<'a, Kind: StringletKind, const SIZE: usize, const LEN: usize> PartialEqSpecImpl<&'a str> for StringletBase<Kind, SIZE, LEN> where
    Self: ConfigBase<Kind, SIZE, LEN>,
 {
    open spec fn obeys_eq_spec() -> bool {
        true
    }

    open spec fn eq_spec(&self, other: &&'a str) -> bool {
        self@ == other.spec_bytes()
    }
}

impl<Kind: StringletKind, const SIZE: usize, const LEN: usize> PartialEq<String> for StringletBase<Kind, SIZE, LEN> where
    Self: ConfigBase<Kind, SIZE, LEN>,
 {
    fn eq(&self, other: &String) -> (r: bool)
        ensures
            r == (self@ == encode_utf8(other@)),
    {
        self.eq(other.as_str())
    }
}

impl<Kind: StringletKind, const SIZE: usize, const LEN: usize> PartialEqSpecImpl<String> for StringletBase<Kind, SIZE, LEN> where
    Self: ConfigBase<Kind, SIZE, LEN>,
 {
    open spec fn obeys_eq_spec() -> bool {
        true
    }

    open spec fn eq_spec(&self, other: &String) -> bool {
        self@ == encode_utf8(other@)
    }
}

impl<
    Kind: StringletKind,
    const SIZE: usize,
    const LEN: usize,
    Kind2: StringletKind,
    const SIZE2: usize,
    const LEN2: usize,
> PartialOrd<StringletBase<Kind2, SIZE2, LEN2>> for StringletBase<Kind, SIZE, LEN> where
    Self: ConfigBase<Kind, SIZE, LEN>,
    StringletBase<Kind2, SIZE2, LEN2>: ConfigBase<Kind2, SIZE2, LEN2>,
 {
    /// Orders by the content bytes; filler bytes take no part.
    fn partial_cmp(&self, other: &StringletBase<Kind2, SIZE2, LEN2>) -> (r: Option<Ordering>)
        ensures
            r == Some(lex_order(self@, other@)),
    {
        proof {
            use_type_invariant(self);
            use_type_invariant(other);
        }
        if Kind::ABBR == FIXED_ABBR && Kind2::ABBR == FIXED_ABBR {
            proof {
                assert(self.str@ =~= self@);
                assert(other.str@ =~= other@);
            }
            Some(bytes_cmp(self.str.as_slice(), other.str.as_slice()))
        } else {
            Some(bytes_cmp(self.as_bytes(), other.as_bytes()))
        }
    }
}

impl<
    Kind: StringletKind,
    const SIZE: usize,
    const LEN: usize,
    Kind2: StringletKind,
    const SIZE2: usize,
    const LEN2: usize,
> PartialOrdSpecImpl<StringletBase<Kind2, SIZE2, LEN2>> for StringletBase<Kind, SIZE, LEN> where
    Self: ConfigBase<Kind, SIZE, LEN>,
    StringletBase<Kind2, SIZE2, LEN2>: ConfigBase<Kind2, SIZE2, LEN2>,
 {
    open spec fn obeys_partial_cmp_spec() -> bool {
        true
    }

    open spec fn partial_cmp_spec(&self, other: &StringletBase<Kind2, SIZE2, LEN2>) -> Option<Ordering> {
        Some(lex_order(self@, other@))
    }
}

impl<
    'a,
    Kind: StringletKind,
    const SIZE: usize,
    const LEN: usize,
    Kind2: StringletKind,
    const SIZE2: usize,
    const LEN2: usize,
> PartialOrd<&'a StringletBase<Kind2, SIZE2, LEN2>> for StringletBase<Kind, SIZE, LEN> where
    Self: ConfigBase<Kind, SIZE, LEN>,
    StringletBase<Kind2, SIZE2, LEN2>: ConfigBase<Kind2, SIZE2, LEN2>,
 {
    fn partial_cmp(&self, other: &&'a StringletBase<Kind2, SIZE2, LEN2>) -> (r: Option<Ordering>)
        ensures
            r == Some(lex_order(self@, other@)),
    {
        self.partial_cmp(*other)
    }
}

impl<
    'a,
    Kind: StringletKind,
    const SIZE: usize,
    const LEN: usize,
    Kind2: StringletKind,
    const SIZE2: usize,
    const LEN2: usize,
> PartialOrdSpecImpl<&'a StringletBase<Kind2, SIZE2, LEN2>> for StringletBase<Kind, SIZE, LEN> where
    Self: ConfigBase<Kind, SIZE, LEN>,
    StringletBase<Kind2, SIZE2, LEN2>: ConfigBase<Kind2, SIZE2, LEN2>,
 {
    open spec fn obeys_partial_cmp_spec() -> bool {
        true
    }

    open spec fn partial_cmp_spec(&self, other: &&'a StringletBase<Kind2, SIZE2, LEN2>) -> Option<Ordering> {
        Some(lex_order(self@, other@))
    }
}

impl<Kind: StringletKind, const SIZE: usize, const LEN: usize> PartialOrd<str> for StringletBase<Kind, SIZE, LEN> where
    Self: ConfigBase<Kind, SIZE, LEN>,
 {
    fn partial_cmp(&self, other: &str) -> (r: Option<Ordering>)
        ensures
            r == Some(lex_order(self@, other.spec_bytes())),
    {
        Some(bytes_cmp(self.as_bytes(), other.as_bytes()))
    }
}

impl<Kind: StringletKind, const SIZE: usize, const LEN: usize> PartialOrdSpecImpl<str> for StringletBase<Kind, SIZE, LEN> where
    Self: ConfigBase<Kind, SIZE, LEN>,
 {
    open spec fn obeys_partial_cmp_spec() -> bool {
        true
    }

    open spec fn partial_cmp_spec(&self, other: &str) -> Option<Ordering> {
        Some(lex_order(self@, other.spec_bytes()))
    }
}

impl<'a, Kind: StringletKind, const SIZE: usize, const LEN: usize> PartialOrd<&'a str> for StringletBase<Kind, SIZE, LEN> where
    Self: ConfigBase<Kind, SIZE, LEN>,
 {
    fn partial_cmp(&self, other: &&'a str) -> (r: Option<Ordering>)
        ensures
            r == Some(lex_order(self@, other.spec_bytes())),
    {
        self.partial_cmp(*other)
    }
}

impl<'a, Kind: StringletKind, const SIZE: usize, const LEN: usize> PartialOrdSpecImpl<&'a str> for StringletBase<Kind, SIZE, LEN> where
    Self: ConfigBase<Kind, SIZE, LEN>,
 {
    open spec fn obeys_partial_cmp_spec() -> bool {
        true
    }

    open spec fn partial_cmp_spec(&self, other: &&'a str) -> Option<Ordering> {
        Some(lex_order(self@, other.spec_bytes()))
    }
}

impl<Kind: StringletKind, const SIZE: usize, const LEN: usize> StringletBase<Kind, SIZE, LEN> where
    Self: ConfigBase<Kind, SIZE, LEN>,
 {
    /// Total order of two stringlets of one type, by their content bytes.
    pub fn cmp(&self, other: &Self) -> (r: Ordering)
        ensures
            r == lex_order(self@, other@),
    {
        bytes_cmp(self.as_bytes(), other.as_bytes())
    }
}

} // verus!
