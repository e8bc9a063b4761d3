//! Text views over bytes that the host runtime owns.

use vstd::prelude::*;
use vstd::string::StringSliceAdditionalSpecFns;
use vstd::utf8::{decode_utf8, encode_utf8_decode_utf8, valid_utf8};

verus! {

/// The error of `core::str::from_utf8`, carried through as it is.
#[verifier::external_type_specification]
#[verifier::external_body]
pub struct ExUtf8Error(core::str::Utf8Error);

/// `core::str::from_utf8` succeeds exactly on well-formed UTF-8, and the text
/// that it gives lies over the very bytes that it was given.
pub assume_specification[ core::str::from_utf8 ](v: &[u8]) -> (text: Result<
    &str,
    core::str::Utf8Error,
>)
    ensures
        text is Ok <==> valid_utf8(v@),
        text matches Ok(s) ==> s.spec_bytes() == v@,
;

/// Views `bytes` as text, without copying them.
///
/// The caller vouches for the bytes: they are well-formed UTF-8, as the text
/// objects of the host runtime are by construction. The view borrows them, so
/// they stay alive and unchanged for as long as it is used. The text holds
/// exactly the characters that the bytes encode; over no bytes it is empty.
pub fn str_from_slice(bytes: &[u8]) -> (text: &str)
    requires
        valid_utf8(bytes@),
    ensures
        text.spec_bytes() == bytes@,
        text@ == decode_utf8(bytes@),
        bytes@.len() == 0 ==> text@.len() == 0,
{
    match core::str::from_utf8(bytes) {
        Ok(text) => {
            proof {
                encode_utf8_decode_utf8(text@);
            }
            text
        },
        Err(_) => vstd::pervasive::unreached(),
    }
}

} // verus!
