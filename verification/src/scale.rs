//! The SCALE codec encodings that the Wasm contract messages are made of.

use parity_scale_codec::{Decode, Encode};
use vstd::prelude::*;

use crate::bytes::{le_value, law_le_encoding_one_to_one};

verus! {

#[verifier::external_type_specification]
#[verifier::external_body]
pub struct ExCodecError(parity_scale_codec::Error);

/// Calls `<u128 as Encode>::encode`. Trusted: the codec writes a `u128` as its
/// sixteen bytes, least significant first.
#[verifier::external_body]
pub(crate) fn scale_encode_u128(value: u128) -> (encoded: Vec<u8>)
    ensures
        encoded@.len() == 16,
        le_value(encoded@) == value,
{
    value.encode()
}

/// Calls `<[u8; 20] as Encode>::encode`. Trusted: the codec writes a fixed-size
/// byte array as its bytes, with no length prefix.
#[verifier::external_body]
pub(crate) fn scale_encode_bytes20(bytes: &[u8; 20]) -> (encoded: Vec<u8>)
    ensures
        encoded@ == bytes@,
{
    bytes.encode()
}

/// Calls `<u128 as Decode>::decode` on a byte slice. Trusted: it fails exactly
/// when fewer than sixteen bytes are given, and otherwise reads the first
/// sixteen bytes, least significant first.
#[verifier::external_body]
pub(crate) fn scale_decode_u128(data: &[u8]) -> (decoded: Result<u128, parity_scale_codec::Error>)
    ensures
        decoded is Ok <==> data@.len() >= 16,
        decoded matches Ok(v) ==> v == le_value(data@.subrange(0, 16)),
{
    let mut input = data;
    u128::decode(&mut input)
}

/// SCALE `u128` encoding and decoding undo each other: decoding the sixteen
/// bytes that encode `value` gives `value`, and those sixteen bytes are the
/// only ones that decode to it.
pub proof fn law_scale_u128_roundtrip(encoded: Seq<u8>, value: u128, other: Seq<u8>)
    requires
        encoded.len() == 16,
        le_value(encoded) == value,
    ensures
        le_value(encoded.subrange(0, 16)) == value,
        other.len() >= 16 && le_value(other.subrange(0, 16)) == value ==> other.subrange(0, 16)
            == encoded,
{
    assert(encoded.subrange(0, 16) =~= encoded);
    if other.len() >= 16 && le_value(other.subrange(0, 16)) == value {
        law_le_encoding_one_to_one(other.subrange(0, 16), encoded);
    }
}

} // verus!
