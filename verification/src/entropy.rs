//! What the engine does with a random value once the host has drawn it.
//!
//! The host's oracle hands out 32 random bytes together with the block since
//! which chain observers could have known them. The engine reads the first
//! four bytes as a number and takes from it the slot at which the candle
//! went out.

use vstd::prelude::*;
use parity_scale_codec::Decode;
use crate::identity::BlockNumber;

verus! {

/// Number of blocks by which the randomness of the usual host lags behind
/// the chain: who wants the winner found waits this long after the ending
/// window, for a draw that is old enough.
pub const RF_DELAY: u32 = 81;

/// One answer of the host's randomness oracle.
#[derive(Clone, Copy, Debug)]
pub struct RandomDraw {
    /// The random bytes.
    pub raw: crate::identity::Hash,
    /// The block since which the bytes could have been known.
    pub known_since: BlockNumber,
}

/// The number whose little-endian form the first four of `bytes` are.
pub open spec fn leading_u32(bytes: Seq<u8>) -> BlockNumber {
    (bytes[0] + 256 * bytes[1] + 65536 * bytes[2] + 16777216 * bytes[3]) as BlockNumber
}

/// The slot at which the candle went out, for a random number `raw` and an
/// ending window of `ending` blocks.
pub open spec fn candle_offset(raw: BlockNumber, ending: BlockNumber) -> int {
    raw % ending + 1
}

/// `Decode::decode` of `parity_scale_codec` for `u32`, on the bytes of a
/// hash: it reads four bytes and takes them as a little-endian number. It
/// fails only on an input of fewer than four bytes, which a hash never is.
#[verifier::external_body]
fn decode_leading_u32(raw: &crate::identity::Hash) -> (r: Option<BlockNumber>)
    ensures
        r == Some(leading_u32(raw.bytes@)),
{
    u32::decode(&mut &raw.bytes[..]).ok()
}

/// The slot at which the candle went out according to the random bytes
/// `raw`: one of the slots `1..=ending`.
pub fn offset_of_draw(raw: &crate::identity::Hash, ending: BlockNumber) -> (r: Option<BlockNumber>)
    requires
        ending >= 1,
    ensures
        r == Some(candle_offset(leading_u32(raw.bytes@), ending) as BlockNumber),
        1 <= candle_offset(leading_u32(raw.bytes@), ending) <= ending,
{
    match decode_leading_u32(raw) {
        Some(number) => Some(number % ending + 1),
        None => None,
    }
}

} // verus!
