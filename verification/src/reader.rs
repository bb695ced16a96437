//! The byte reader that supplies 16-bit code units to the decoder.

use vstd::prelude::*;
use yaxpeax_arch::{ReadError, Reader, U16le, U8Reader};

verus! {

/// A cursor over a byte slice; see [`unread_bytes`].
#[verifier::external_type_specification]
#[verifier::external_body]
pub struct ExU8Reader<'a>(U8Reader<'a>);

/// The reason why a read failed.
#[verifier::external_type_specification]
#[verifier::external_body]
pub struct ExReadError(ReadError);

/// The bytes that the reader has not yet handed out, in order.
pub uninterp spec fn unread_bytes(reader: &U8Reader<'_>) -> Seq<u8>;

/// The 16-bit unit whose low byte is `low` and whose high byte is `high`.
pub open spec fn le16(low: u8, high: u8) -> u16 {
    (low as int + 0x100 * high as int) as u16
}

/// Reads the next 16-bit little-endian code unit.
///
/// Calls `Reader::<u32, U16le>::next` of `U8Reader`. That function fails, and
/// leaves the reader where it was, when fewer than two bytes are unread;
/// otherwise it takes two bytes and returns them as one unit, the first byte
/// the low one.
#[verifier::external_body]
pub(crate) fn next_unit(words: &mut U8Reader<'_>) -> (r: Result<u16, ReadError>)
    ensures
        unread_bytes(old(words)).len() < 2 ==> r is Err && unread_bytes(final(words))
            == unread_bytes(old(words)),
        unread_bytes(old(words)).len() >= 2 ==> r == Ok::<u16, ReadError>(
            le16(unread_bytes(old(words))[0], unread_bytes(old(words))[1]),
        ) && unread_bytes(final(words)) == unread_bytes(old(words)).skip(2),
{
    match Reader::<u32, U16le>::next(words) {
        Ok(unit) => Ok(unit.0),
        Err(e) => Err(e),
    }
}

} // verus!
