//! Making a stringlet: checked and unchecked constructors, and the empty one where it exists.
use crate::model::{lemma_decode_len, lemma_last_below_tag};
use crate::text::utf8_text;
use crate::{
    encode, fill_byte, ConfigBase, Fixed, Slim, StringletBase, StringletKind, Trim, Var,
    FIXED_ABBR, TAG, VAR_ABBR,
};
use core::marker::PhantomData;
use vstd::prelude::*;
use vstd::string::StringSliceAdditionalSpecFns;
use vstd::utf8::valid_utf8;

verus! {

broadcast use vstd::utf8::group_utf8_lib;

/// Content that does not fit the kind's length rule at this capacity.
#[derive(Copy, Clone, Debug, PartialEq, Eq, Structural)]
pub struct LengthError {
    /// The offending content length.
    pub len: usize,
    /// The capacity it was meant for.
    pub capacity: usize,
}

/// Why raw bytes could not be made into a stringlet.
#[derive(Copy, Clone, Debug, PartialEq, Eq, Structural)]
pub enum FromBytesError {
    /// The bytes do not fit the kind's length rule.
    Length(LengthError),
    /// The bytes are not valid UTF-8.
    Encoding,
}

impl<Kind: StringletKind, const SIZE: usize, const LEN: usize> StringletBase<Kind, SIZE, LEN> where
    Self: ConfigBase<Kind, SIZE, LEN>,
 {
    /// Stores `str`, or refuses it where it does not fit.
    pub fn from_str(str: &str) -> (r: Result<Self, LengthError>)
        ensures
            r is Ok <==> Self::spec_fits(str.spec_bytes().len() as int),
            r is Ok ==> r->Ok_0@ == str.spec_bytes(),
            r is Err ==> r->Err_0.len == str.spec_bytes().len() && r->Err_0.capacity == SIZE,
    {
        let bytes = str.as_bytes();
        if Self::fits(bytes.len()) {
            Ok(Self::from_utf8_unchecked(bytes))
        } else {
            Err(LengthError { len: bytes.len(), capacity: SIZE })
        }
    }

    /// Stores `str`, which the caller has made sure fits.
    pub fn from_str_unchecked(str: &str) -> (r: Self)
        requires
            Self::spec_fits(str.spec_bytes().len() as int),
        ensures
            r@ == str.spec_bytes(),
    {
        Self::from_utf8_unchecked(str.as_bytes())
    }

    /// Stores the whole array as content, or refuses it where it is not valid UTF-8.
    pub fn from_utf8_bytes(str: [u8; SIZE]) -> (r: Result<Self, FromBytesError>)
        ensures
            r is Ok <==> valid_utf8(str@),
            r is Ok ==> r->Ok_0@ == str@,
            r is Err ==> r->Err_0 == FromBytesError::Encoding,
    {
        match utf8_text(str.as_slice()) {
            Ok(_) => Ok(Self::from_utf8_bytes_unchecked(str)),
            Err(_) => Err(FromBytesError::Encoding),
        }
    }

    /// Stores the whole array as content, which the caller has made sure is valid UTF-8.
    pub fn from_utf8_bytes_unchecked(str: [u8; SIZE]) -> (r: Self)
        requires
            valid_utf8(str@),
        ensures
            r@ == str@,
    {
        proof {
            <Self as ConfigBase<Kind, SIZE, LEN>>::lemma_legal();
            assert(encode(SIZE as int, str@) =~= str@);
            assert(str@.subrange(0, SIZE as int) =~= str@);
            if SIZE > 0 {
                lemma_last_below_tag(str@);
            }
        }
        Self { str, len: [SIZE as u8; LEN], _kind: PhantomData }
    }

    /// Stores `bytes`, or refuses them where they do not fit or are not valid UTF-8.
    pub fn from_utf8(bytes: &[u8]) -> (r: Result<Self, FromBytesError>)
        ensures
            r is Ok <==> Self::spec_fits(bytes@.len() as int) && valid_utf8(bytes@),
            r is Ok ==> r->Ok_0@ == bytes@,
            !Self::spec_fits(bytes@.len() as int) ==> r is Err && r->Err_0 == FromBytesError::Length(
                LengthError { len: bytes.len(), capacity: SIZE },
            ),
            Self::spec_fits(bytes@.len() as int) && !valid_utf8(bytes@) ==> r == Err::<
                Self,
                FromBytesError,
            >(FromBytesError::Encoding),
    {
        if !Self::fits(bytes.len()) {
            return Err(FromBytesError::Length(LengthError { len: bytes.len(), capacity: SIZE }));
        }
        match utf8_text(bytes) {
            Ok(_) => Ok(Self::from_utf8_unchecked(bytes)),
            Err(_) => Err(FromBytesError::Encoding),
        }
    }

    /// Stores `bytes`, which the caller has made sure fit and are valid UTF-8: copies them
    /// to the front and tags every unused position with the length of the unused tail.
    pub fn from_utf8_unchecked(bytes: &[u8]) -> (r: Self)
        requires
            Self::spec_fits(bytes@.len() as int),
            valid_utf8(bytes@),
        ensures
            r@ == bytes@,
    {
        proof {
            <Self as ConfigBase<Kind, SIZE, LEN>>::lemma_legal();
        }
        let n = bytes.len();
        let tail: u8 = (SIZE - n) as u8;
        let fill: u8 = TAG | tail;
        proof {
            assert(TAG | tail == TAG + tail % 64) by (bit_vector);
            assert(fill == fill_byte(SIZE - n));
        }
        let mut buf: [u8; SIZE] = [fill; SIZE];
        let mut i: usize = 0;
        while i < n
            invariant
                0 <= i <= n <= SIZE,
                n == bytes@.len(),
                forall|j: int| 0 <= j < i ==> buf@[j] == bytes@[j],
                forall|j: int| i <= j < SIZE ==> buf@[j] == fill,
            decreases n - i,
        {
            buf[i] = bytes[i];
            i += 1;
        }
        let len: [u8; LEN] = [n as u8; LEN];
        proof {
            assert(buf@ =~= encode(SIZE as int, bytes@));
            if Kind::ABBR != FIXED_ABBR && Kind::ABBR != VAR_ABBR && SIZE > 0 {
                lemma_decode_len(SIZE as int, bytes@);
            }
            assert(buf@.subrange(0, n as int) =~= bytes@);
        }
        Self { str: buf, len, _kind: PhantomData }
    }
}

/// The empty stringlet, where the configuration can hold one.
fn empty<Kind: StringletKind, const SIZE: usize, const LEN: usize>() -> (r: StringletBase<
    Kind,
    SIZE,
    LEN,
>) where StringletBase<Kind, SIZE, LEN>: ConfigBase<Kind, SIZE, LEN>
    requires
        StringletBase::<Kind, SIZE, LEN>::spec_fits(0),
    ensures
        r@ == Seq::<u8>::empty(),
{
    let none: [u8; 0] = [];
    proof {
        assert(none@ =~= Seq::<u8>::empty());
    }
    StringletBase::from_utf8_unchecked(none.as_slice())
}

impl StringletBase<Fixed, 0, 0> {
    /// The empty stringlet.
    pub fn new() -> (r: Self)
        ensures
            r@ == Seq::<u8>::empty(),
    {
        proof {
            <Self as ConfigBase<Fixed, 0, 0>>::lemma_legal();
        }
        empty()
    }
}

impl Default for StringletBase<Fixed, 0, 0> {
    fn default() -> (r: Self)
        ensures
            r@ == Seq::<u8>::empty(),
    {
        Self::new()
    }
}

impl StringletBase<Trim, 0, 0> {
    /// The empty stringlet.
    pub fn new() -> (r: Self)
        ensures
            r@ == Seq::<u8>::empty(),
    {
        proof {
            <Self as ConfigBase<Trim, 0, 0>>::lemma_legal();
        }
        empty()
    }
}

impl Default for StringletBase<Trim, 0, 0> {
    fn default() -> (r: Self)
        ensures
            r@ == Seq::<u8>::empty(),
    {
        Self::new()
    }
}

impl StringletBase<Trim, 1, 0> {
    /// The empty stringlet.
    pub fn new() -> (r: Self)
        ensures
            r@ == Seq::<u8>::empty(),
    {
        proof {
            <Self as ConfigBase<Trim, 1, 0>>::lemma_legal();
        }
        empty()
    }
}

impl Default for StringletBase<Trim, 1, 0> {
    fn default() -> (r: Self)
        ensures
            r@ == Seq::<u8>::empty(),
    {
        Self::new()
    }
}

impl<const SIZE: usize> StringletBase<Var, SIZE, 1> where
    Self: ConfigBase<Var, SIZE, 1>,
 {
    /// The empty stringlet.
    pub fn new() -> (r: Self)
        ensures
            r@ == Seq::<u8>::empty(),
    {
        proof {
            <Self as ConfigBase<Var, SIZE, 1>>::lemma_legal();
        }
        empty()
    }
}

impl<const SIZE: usize> Default for StringletBase<Var, SIZE, 1> where
    Self: ConfigBase<Var, SIZE, 1>,
 {
    fn default() -> (r: Self)
        ensures
            r@ == Seq::<u8>::empty(),
    {
        Self::new()
    }
}

impl<const SIZE: usize> StringletBase<Slim, SIZE, 0> where
    Self: ConfigBase<Slim, SIZE, 0>,
 {
    /// The empty stringlet.
    pub fn new() -> (r: Self)
        ensures
            r@ == Seq::<u8>::empty(),
    {
        proof {
            <Self as ConfigBase<Slim, SIZE, 0>>::lemma_legal();
        }
        empty()
    }
}

impl<const SIZE: usize> Default for StringletBase<Slim, SIZE, 0> where
    Self: ConfigBase<Slim, SIZE, 0>,
 {
    fn default() -> (r: Self)
        ensures
            r@ == Seq::<u8>::empty(),
    {
        Self::new()
    }
}

} // verus!
