//! Reading a stringlet: its length, emptiness and content.
use crate::model::{
    decimal, digit_char, lemma_fill_tagged, lemma_last_below_tag, type_label_of,
};
use crate::text::utf8_text;
use crate::{fill_byte, ConfigBase, StringletBase, StringletKind, FIXED_ABBR, TAG, TRIM_ABBR, VAR_ABBR};
use vstd::prelude::*;
use vstd::string::StringExecFns;
use vstd::string::StringSliceAdditionalSpecFns;

verus! {

/// The one-character text of a decimal digit.
fn digit_str(d: usize) -> (r: &'static str)
    requires
        d < 10,
    ensures
        r@ == seq![digit_char(d as nat)],
{
    proof {
        reveal_strlit("0");
        reveal_strlit("1");
        reveal_strlit("2");
        reveal_strlit("3");
        reveal_strlit("4");
        reveal_strlit("5");
        reveal_strlit("6");
        reveal_strlit("7");
        reveal_strlit("8");
        reveal_strlit("9");
    }
    if d == 0 {
        "0"
    } else if d == 1 {
        "1"
    } else if d == 2 {
        "2"
    } else if d == 3 {
        "3"
    } else if d == 4 {
        "4"
    } else if d == 5 {
        "5"
    } else if d == 6 {
        "6"
    } else if d == 7 {
        "7"
    } else if d == 8 {
        "8"
    } else {
        "9"
    }
}

/// Appends the decimal digits of `n` to `s`.
fn push_decimal(s: &mut String, n: usize)
    ensures
        final(s)@ == old(s)@ + decimal(n as nat),
    decreases n,
{
    if n >= 10 {
        push_decimal(s, n / 10);
    }
    s.append(digit_str(n % 10));
    proof {
        if n >= 10 {
            assert(decimal(n as nat) == decimal((n / 10) as nat) + seq![digit_char((n % 10) as nat)]);
        }
    }
}

impl<Kind: StringletKind, const SIZE: usize, const LEN: usize> StringletBase<Kind, SIZE, LEN> where
    Self: ConfigBase<Kind, SIZE, LEN>,
 {
    /// The name of this configuration, as in `VarStringlet<12>`.
    pub fn type_label() -> (r: String)
        ensures
            r@ == type_label_of(Kind::ABBR, SIZE as nat),
    {
        let mut name = String::from_str(
            if Kind::ABBR == FIXED_ABBR {
                "Stringlet"
            } else if Kind::ABBR == VAR_ABBR {
                "VarStringlet"
            } else if Kind::ABBR == TRIM_ABBR {
                "TrimStringlet"
            } else {
                "SlimStringlet"
            },
        );
        proof {
            reveal_strlit("<");
            reveal_strlit(">");
        }
        name.append("<");
        push_decimal(&mut name, SIZE);
        name.append(">");
        name
    }

    /// Whether content of `len` bytes fits this configuration.
    #[inline(always)]
    pub fn fits(len: usize) -> (r: bool)
        ensures
            r == Self::spec_fits(len as int),
    {
        if Kind::ABBR == FIXED_ABBR {
            len == SIZE
        } else if Kind::ABBR == TRIM_ABBR {
            len == SIZE || (SIZE > 0 && len == SIZE - 1)
        } else {
            len <= SIZE
        }
    }

    /// The last byte of the array, which tells the length of a [`crate::Trim`] or
    /// [`crate::Slim`] stringlet: the last content byte, below the tag, where the content
    /// is full, else the tag that counts the unused tail.
    #[inline(always)]
    pub fn last(&self) -> (r: u8)
        requires
            SIZE > 0,
        ensures
            r == self.buffer()[SIZE - 1],
            self@.len() == SIZE ==> r == self@[SIZE - 1] && r < TAG,
            self@.len() < SIZE ==> r == fill_byte(SIZE - self@.len()) && r >= TAG,
    {
        proof {
            use_type_invariant(self);
            if self@.len() == SIZE {
                lemma_last_below_tag(self@);
            } else {
                lemma_fill_tagged(SIZE - self@.len());
            }
        }
        self.str[SIZE - 1]
    }

    /// The content length in bytes. No branch depends on the stored bytes: for
    /// [`crate::Trim`] and [`crate::Slim`] the tail length is read from the last byte by
    /// arithmetic on comparisons.
    #[inline(always)]
    pub fn len(&self) -> (r: usize)
        ensures
            r == self@.len(),
            r <= SIZE,
    {
        proof {
            use_type_invariant(self);
            <Self as ConfigBase<Kind, SIZE, LEN>>::lemma_legal();
        }
        if Kind::ABBR == FIXED_ABBR || SIZE == 0 {
            return SIZE;
        } else if Kind::ABBR == VAR_ABBR {
            return self.len[0] as usize;
        }
        let last = self.last();
        proof {
            assert(last >= TAG ==> last ^ TAG == last - TAG) by (bit_vector);
            if last == TAG {
                assert(SIZE == 64);
            }
        }
        SIZE - (last == TAG) as usize * SIZE - (last > TAG) as usize * (last ^ TAG) as usize
    }

    /// Whether the content is empty: always at capacity 0, never for a [`crate::Fixed`]
    /// one of positive capacity.
    #[inline(always)]
    pub fn is_empty(&self) -> (r: bool)
        ensures
            r == (self@.len() == 0),
            SIZE == 0 ==> r,
    {
        proof {
            use_type_invariant(self);
            <Self as ConfigBase<Kind, SIZE, LEN>>::lemma_legal();
        }
        if SIZE == 0 {
            true
        } else if Kind::ABBR == FIXED_ABBR {
            false
        } else if Kind::ABBR == VAR_ABBR {
            self.len[0] == 0
        } else if SIZE == 64 {
            // 64 unused positions are tagged with zero low bits
            self.last() == TAG
        } else {
            let size: u8 = SIZE as u8;
            proof {
                assert(size < 64 ==> TAG | size == TAG + size) by (bit_vector);
            }
            self.last() == TAG | size
        }
    }

    /// The content bytes.
    #[inline(always)]
    pub fn as_bytes(&self) -> (r: &[u8])
        ensures
            r@ == self@,
    {
        proof {
            use_type_invariant(self);
        }
        if Kind::ABBR == FIXED_ABBR {
            assert(self@ =~= self.str@);
            self.str.as_slice()
        } else {
            self.str.as_slice().split_at(self.len()).0
        }
    }

    /// The content as text.
    #[inline(always)]
    pub fn as_str(&self) -> (r: &str)
        ensures
            r.spec_bytes() == self@,
    {
        proof {
            use_type_invariant(self);
        }
        match utf8_text(self.as_bytes()) {
            Ok(text) => text,
            Err(_) => {
                // the content is valid UTF-8 by the type invariant
                assert(false);
                ""
            },
        }
    }
}

} // verus!
