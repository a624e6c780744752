//! Inline strings of a fixed byte capacity that live entirely in a byte array.
//!
//! Four storage strategies ("kinds") decide how the content length is recovered:
//! [`Fixed`] holds exactly `SIZE` bytes, [`Var`] keeps an explicit length byte,
//! [`Trim`] holds `SIZE` or `SIZE - 1` bytes and [`Slim`] holds up to `SIZE` bytes,
//! the last two telling the length from the trailing byte alone.
use core::marker::PhantomData;
use vstd::prelude::*;
use vstd::utf8::valid_utf8;

mod cmp;
mod config;
pub mod laws;
mod methods;
pub mod model;
mod new;
mod text;
mod traits;

pub use model::{encode, fill_byte, fits_len, legal_config, lex_order, tail_len};
pub use new::{FromBytesError, LengthError};

verus! {

/// A byte with both high bits set is never the last byte of valid UTF-8 text. Unused
/// positions are filled with it, its six low bits holding the length of the unused tail
/// (modulo 64, so that a tail of 64 reads as zero).
pub const TAG: u8 = 0b11_000000;

/// Abbreviation of [`Fixed`] in [`StringletKind::ABBR`].
pub const FIXED_ABBR: u8 = 0x46;

/// Abbreviation of [`Var`] in [`StringletKind::ABBR`].
pub const VAR_ABBR: u8 = 0x56;

/// Abbreviation of [`Trim`] in [`StringletKind::ABBR`].
pub const TRIM_ABBR: u8 = 0x54;

/// Abbreviation of [`Slim`] in [`StringletKind::ABBR`].
pub const SLIM_ABBR: u8 = 0x53;

/// The storage strategy of a [`StringletBase`], chosen at the type level.
pub trait StringletKind {
    const ABBR: u8;
}

/// Content is always exactly `SIZE` bytes long.
#[derive(Copy, Clone, Debug, Hash)]
pub enum Fixed {
    Marker,
}

impl StringletKind for Fixed {
    const ABBR: u8 = FIXED_ABBR;
}

/// Content of `0..=SIZE` bytes, with an explicit length byte.
#[derive(Copy, Clone, Debug, Hash)]
pub enum Var {
    Marker,
}

impl StringletKind for Var {
    const ABBR: u8 = VAR_ABBR;
}

/// Content of `SIZE` or `SIZE - 1` bytes, told apart by the last byte.
#[derive(Copy, Clone, Debug, Hash)]
pub enum Trim {
    Marker,
}

impl StringletKind for Trim {
    const ABBR: u8 = TRIM_ABBR;
}

/// Content of `0..=SIZE` bytes, the length recovered from the last byte.
#[derive(Copy, Clone, Debug, Hash)]
pub enum Slim {
    Marker,
}

impl StringletKind for Slim {
    const ABBR: u8 = SLIM_ABBR;
}

/// Marks the legal combinations of kind, capacity `SIZE` and length-byte count `LEN`.
/// It is implemented only for those, so that an illegal one does not compile; each
/// implementation proves that its combination is legal.
pub trait ConfigBase<Kind: StringletKind, const SIZE: usize, const LEN: usize> {
    proof fn lemma_legal()
        ensures
            legal_config(Kind::ABBR, SIZE as int, LEN as int),
    ;
}

/// Legal configurations of [`Stringlet`].
pub trait Config<const SIZE: usize>: ConfigBase<Fixed, SIZE, 0> {}

/// Legal configurations of [`VarStringlet`].
pub trait VarConfig<const SIZE: usize>: ConfigBase<Var, SIZE, 1> {}

/// Legal configurations of [`TrimStringlet`].
pub trait TrimConfig<const SIZE: usize>: ConfigBase<Trim, SIZE, 0> {}

/// Legal configurations of [`SlimStringlet`].
pub trait SlimConfig<const SIZE: usize>: ConfigBase<Slim, SIZE, 0> {}

/// An inline string of bounded size, which can be handled like a primitive type.
#[derive(Copy, Debug, Hash)]
pub struct StringletBase<Kind: StringletKind, const SIZE: usize, const LEN: usize> where
    Self: ConfigBase<Kind, SIZE, LEN>,
 {
    /// The content, followed by tagged filler bytes where it is shorter than `SIZE`.
    pub(crate) str: [u8; SIZE],
    /// The explicit content length, for [`Var`] only.
    pub(crate) len: [u8; LEN],
    pub(crate) _kind: PhantomData<Kind>,
}

/// Fixed length stringlet.
pub type Stringlet<const SIZE: usize> = StringletBase<Fixed, SIZE, 0>;

/// Variable length stringlet.
pub type VarStringlet<const SIZE: usize> = StringletBase<Var, SIZE, 1>;

/// Trimmed length stringlet.
pub type TrimStringlet<const SIZE: usize> = StringletBase<Trim, SIZE, 0>;

/// Slim variable length stringlet.
pub type SlimStringlet<const SIZE: usize> = StringletBase<Slim, SIZE, 0>;

impl<Kind: StringletKind, const SIZE: usize, const LEN: usize> StringletBase<Kind, SIZE, LEN> where
    Self: ConfigBase<Kind, SIZE, LEN>,
 {
    /// Whether content of `n` bytes can be stored in this configuration.
    pub open spec fn spec_fits(n: int) -> bool {
        fits_len(Kind::ABBR, SIZE as int, n)
    }

    /// The content length as the stored bytes give it.
    pub(crate) closed spec fn stored_len(&self) -> int {
        if Kind::ABBR == FIXED_ABBR {
            SIZE as int
        } else if Kind::ABBR == VAR_ABBR {
            self.len@[0] as int
        } else if SIZE == 0 {
            0
        } else {
            SIZE - tail_len(self.str@[SIZE - 1])
        }
    }

    /// The whole byte array, content and filler.
    pub closed spec fn buffer(&self) -> Seq<u8> {
        self.str@
    }

    #[verifier::type_invariant]
    pub(crate) closed spec fn inv(&self) -> bool {
        &&& 0 <= self.stored_len() <= SIZE
        &&& Self::spec_fits(self.stored_len())
        &&& valid_utf8(self.str@.subrange(0, self.stored_len()))
        &&& self.str@ == encode(SIZE as int, self.str@.subrange(0, self.stored_len()))
    }
}

impl<Kind: StringletKind, const SIZE: usize, const LEN: usize> View for StringletBase<
    Kind,
    SIZE,
    LEN,
> where Self: ConfigBase<Kind, SIZE, LEN> {
    type V = Seq<u8>;

    /// The content bytes.
    closed spec fn view(&self) -> Seq<u8> {
        self.str@.subrange(0, self.stored_len())
    }
}

impl<Kind: StringletKind, const SIZE: usize, const LEN: usize> Clone for StringletBase<
    Kind,
    SIZE,
    LEN,
> where Self: ConfigBase<Kind, SIZE, LEN> {
    fn clone(&self) -> (r: Self)
        ensures
            r == *self,
    {
        proof {
            use_type_invariant(self);
        }
        Self { str: self.str, len: self.len, _kind: PhantomData }
    }
}

} // verus!
