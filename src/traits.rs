//! Conversions from and views as text.
use crate::{ConfigBase, LengthError, StringletBase, StringletKind};
use vstd::prelude::*;
use vstd::std_specs::convert::TryFromSpecImpl;
use vstd::string::StringSliceAdditionalSpecFns;
use vstd::utf8::encode_utf8;

verus! {

impl<'a, Kind: StringletKind, const SIZE: usize, const LEN: usize> TryFrom<&'a str> for StringletBase<
    Kind,
    SIZE,
    LEN,
> where Self: ConfigBase<Kind, SIZE, LEN> {
    type Error = LengthError;

    /// Stores `str`, or refuses it where it does not fit.
    fn try_from(str: &'a str) -> (r: Result<Self, LengthError>)
        ensures
            r is Ok <==> Self::spec_fits(str.spec_bytes().len() as int),
            r is Ok ==> r->Ok_0@ == str.spec_bytes(),
            r is Err ==> r->Err_0.len == str.spec_bytes().len() && r->Err_0.capacity == SIZE,
    {
        Self::from_str(str)
    }
}

impl<'a, Kind: StringletKind, const SIZE: usize, const LEN: usize> TryFromSpecImpl<&'a str> for StringletBase<
    Kind,
    SIZE,
    LEN,
> where Self: ConfigBase<Kind, SIZE, LEN> {
    /// The contract of `try_from` above is stated on the method itself.
    open spec fn obeys_try_from_spec() -> bool {
        false
    }

    open spec fn try_from_spec(str: &'a str) -> Result<Self, LengthError> {
        arbitrary()
    }
}

impl<Kind: StringletKind, const SIZE: usize, const LEN: usize> TryFrom<String> for StringletBase<
    Kind,
    SIZE,
    LEN,
> where Self: ConfigBase<Kind, SIZE, LEN> {
    type Error = LengthError;

    /// Stores `str`, or refuses it where it does not fit.
    fn try_from(str: String) -> (r: Result<Self, LengthError>)
        ensures
            r is Ok <==> Self::spec_fits(encode_utf8(str@).len() as int),
            r is Ok ==> r->Ok_0@ == encode_utf8(str@),
            r is Err ==> r->Err_0.len == encode_utf8(str@).len() && r->Err_0.capacity == SIZE,
    {
        Self::from_str(str.as_str())
    }
}

impl<Kind: StringletKind, const SIZE: usize, const LEN: usize> TryFromSpecImpl<String> for StringletBase<
    Kind,
    SIZE,
    LEN,
> where Self: ConfigBase<Kind, SIZE, LEN> {
    /// The contract of `try_from` above is stated on the method itself.
    open spec fn obeys_try_from_spec() -> bool {
        false
    }

    open spec fn try_from_spec(str: String) -> Result<Self, LengthError> {
        arbitrary()
    }
}

impl<Kind: StringletKind, const SIZE: usize, const LEN: usize> core::str::FromStr for StringletBase<
    Kind,
    SIZE,
    LEN,
> where Self: ConfigBase<Kind, SIZE, LEN> {
    type Err = LengthError;

    fn from_str(s: &str) -> (r: Result<Self, LengthError>)
        ensures
            r is Ok <==> Self::spec_fits(s.spec_bytes().len() as int),
            r is Ok ==> r->Ok_0@ == s.spec_bytes(),
            r is Err ==> r->Err_0.len == s.spec_bytes().len() && r->Err_0.capacity == SIZE,
    {
        StringletBase::from_str(s)
    }
}

impl<Kind: StringletKind, const SIZE: usize, const LEN: usize> AsRef<str> for StringletBase<
    Kind,
    SIZE,
    LEN,
> where Self: ConfigBase<Kind, SIZE, LEN> {
    fn as_ref(&self) -> (r: &str)
        ensures
            r.spec_bytes() == self@,
    {
        self.as_str()
    }
}

impl<Kind: StringletKind, const SIZE: usize, const LEN: usize> core::ops::Deref for StringletBase<
    Kind,
    SIZE,
    LEN,
> where Self: ConfigBase<Kind, SIZE, LEN> {
    type Target = str;

    fn deref(&self) -> (r: &str)
        ensures
            r.spec_bytes() == self@,
    {
        self.as_str()
    }
}

} // verus!
