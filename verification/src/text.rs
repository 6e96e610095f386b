//! Text out of the bytes that the driver hands over.

use vstd::prelude::*;
use vstd::string::StringSliceAdditionalSpecFns;
use vstd::utf8::valid_utf8;

verus! {

/// Decodes with `core::str::from_utf8`. Taken from its documentation, and not
/// proved here: the call succeeds exactly on well-formed UTF-8, and the text
/// that it gives consists of the bytes that it was given.
#[verifier::external_body]
pub(crate) fn text_of(bytes: &[u8]) -> (text: Option<&str>)
    ensures
        text is Some <==> valid_utf8(bytes@),
        text is Some ==> text->0.spec_bytes() == bytes@,
{
    match core::str::from_utf8(bytes) {
        Ok(text) => Some(text),
        Err(_) => None,
    }
}

} // verus!
