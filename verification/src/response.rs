//! The text of a response, read out of the receive buffer.

use vstd::prelude::*;
use vstd::utf8::{decode_utf8, valid_utf8};
use crate::text::{trim_end_nul, without_trailing_nul};

verus! {

/// The text that `String::from_utf8_lossy` reads out of bytes: where the
/// bytes are UTF-8 it is what they encode, elsewhere each ill-formed sequence
/// gives the replacement character U+FFFD.
pub uninterp spec fn utf8_lossy(bytes: Seq<u8>) -> Seq<char>;

/// Calls `String::from_utf8_lossy`. The text depends on the bytes alone, and
/// bytes that are well-formed UTF-8 are decoded as they are.
#[verifier::external_body]
fn from_utf8_lossy(bytes: &[u8]) -> (r: String)
    ensures
        r@ == utf8_lossy(bytes@),
        valid_utf8(bytes@) ==> r@ == decode_utf8(bytes@),
{
    String::from_utf8_lossy(bytes).into_owned()
}

/// The text of a response that was read into `buffer`: the buffer decoded as
/// UTF-8, ill-formed sequences replaced, without the NUL characters at its
/// end, which are the part of the buffer that was not written to.
pub fn decode_response(buffer: &[u8]) -> (r: String)
    ensures
        r@ == without_trailing_nul(utf8_lossy(buffer@)),
        valid_utf8(buffer@) ==> r@ == without_trailing_nul(decode_utf8(buffer@)),
{
    let text = from_utf8_lossy(buffer);
    trim_end_nul(text.as_str()).to_string()
}

} // verus!
