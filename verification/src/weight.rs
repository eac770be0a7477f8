//! The weight that executing a block consumed, as the runtime reports it.

use crate::error::FollowError;
use parity_scale_codec::Decode;
use vstd::prelude::*;

verus! {

/// The error of `parity_scale_codec`. It says that decoding failed; nothing
/// is read out of it.
#[verifier::external_type_specification]
#[verifier::external_body]
pub struct ExCodecError(parity_scale_codec::Error);

/// The number that the first eight bytes of `bytes` hold, lowest byte first.
pub open spec fn le_u64(bytes: Seq<u8>) -> int
    recommends
        bytes.len() >= 8,
{
    bytes[0] + bytes[1] * 0x100 + bytes[2] * 0x1_0000 + bytes[3] * 0x100_0000 + bytes[4]
        * 0x1_0000_0000 + bytes[5] * 0x100_0000_0000 + bytes[6] * 0x1_0000_0000_0000 + bytes[7]
        * 0x100_0000_0000_0000
}

/// The weight that the result of an execution reports: the number in its
/// first eight bytes. Bytes that follow them are not read.
pub open spec fn weight_of(encoded_result: Seq<u8>) -> Result<u64, FollowError> {
    if encoded_result.len() >= 8 {
        Ok(le_u64(encoded_result) as u64)
    } else {
        Err(FollowError::DecodeFailure)
    }
}

/// `u64::decode` of `parity_scale_codec`, reading from a slice. It fails
/// where the slice holds fewer than eight bytes. Otherwise it gives the number
/// that the first eight bytes hold in little-endian order; it leaves the rest
/// unread.
#[verifier::external_body]
fn decode_u64(bytes: &[u8]) -> (decoded: Result<u64, parity_scale_codec::Error>)
    ensures
        decoded is Ok <==> bytes@.len() >= 8,
        decoded matches Ok(value) ==> value == le_u64(bytes@),
{
    let mut input: &[u8] = bytes;
    u64::decode(&mut input)
}

/// Reads the consumed weight out of the bytes that an execution returned.
pub fn decode_weight(encoded_result: &[u8]) -> (weight: Result<u64, FollowError>)
    ensures
        weight == weight_of(encoded_result@),
{
    match decode_u64(encoded_result) {
        Ok(consumed_weight) => Ok(consumed_weight),
        Err(_) => Err(FollowError::DecodeFailure),
    }
}

} // verus!
