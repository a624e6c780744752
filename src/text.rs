//! The one call into std that the library needs a contract for: UTF-8 validation.
use vstd::prelude::*;
use vstd::string::StringSliceAdditionalSpecFns;
use vstd::utf8::valid_utf8;

verus! {

/// Declares std's `core::str::Utf8Error`, the error that `core::str::from_utf8` returns,
/// as an opaque type.
#[verifier::external_type_specification]
#[verifier::external_body]
pub struct ExUtf8Error(core::str::Utf8Error);

/// Relies on `core::str::from_utf8`: `Ok` exactly when the bytes are well-formed UTF-8,
/// and then a text view of those same bytes.
#[verifier::external_body]
pub(crate) fn utf8_text<'a>(b: &'a [u8]) -> (r: Result<&'a str, core::str::Utf8Error>)
    ensures
        r is Ok <==> valid_utf8(b@),
        r is Ok ==> r->Ok_0.spec_bytes() == b@,
{
    core::str::from_utf8(b)
}

} // verus!
