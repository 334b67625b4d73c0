//! The byte layout of the calls that carry a token transfer across the bridge:
//! EVM call input (a four-byte selector followed by arguments) and Wasm
//! contract messages (a selector followed by SCALE-encoded arguments), and the
//! reading of the balances that the two contracts answer with.

use vstd::prelude::*;

use crate::bytes::{be_value, le_value, u128_from_be_bytes, u128_to_be_bytes};
use crate::hashing::{keccak256, keccak256_digest};
use crate::scale::{scale_decode_u128, scale_encode_bytes20, scale_encode_u128};

verus! {

/// An EVM function selector: the first four bytes of the Keccak-256 digest
/// of the function's signature.
pub open spec fn spec_selector(signature: Seq<u8>) -> Seq<u8> {
    keccak256(signature).subrange(0, 4)
}

/// The UTF-8 bytes of a function signature.
pub open spec fn signature_bytes(signature: &str) -> Seq<u8> {
    vstd::string::StringSliceAdditionalSpecFns::spec_bytes(signature)
}

/// The EVM address that stands for a 32-byte account: its first twenty bytes.
pub fn evm_address(account: &[u8; 32]) -> (address: [u8; 20])
    ensures
        address@ == account@.subrange(0, 20),
{
    let mut address: [u8; 20] = [0u8; 20];
    let mut i: usize = 0;
    while i < 20
        invariant
            i <= 20,
            address@.len() == 20,
            account@.len() == 32,
            forall|j: int| 0 <= j < i ==> address@[j] == account@[j],
        decreases 20 - i,
    {
        address[i] = account[i];
        i = i + 1;
    }
    assert(address@ =~= account@.subrange(0, 20));
    address
}

/// The selector cut from a Keccak-256 digest: its first four bytes.
pub fn selector_from_digest(digest: &[u8; 32]) -> (selector: [u8; 4])
    ensures
        selector@ == digest@.subrange(0, 4),
{
    let selector: [u8; 4] = [digest[0], digest[1], digest[2], digest[3]];
    assert(selector@ =~= digest@.subrange(0, 4));
    selector
}

/// The selector of the function with the given signature.
pub fn selector(signature: &[u8]) -> (selector: [u8; 4])
    ensures
        selector@ == keccak256(signature@).subrange(0, 4),
        selector@ == spec_selector(signature@),
{
    let digest = keccak256_digest(signature);
    selector_from_digest(&digest)
}

/// Appends the bytes of `tail` to `out`.
fn push_all(out: &mut Vec<u8>, tail: &[u8])
    ensures
        final(out)@ == old(out)@ + tail@,
{
    let mut i: usize = 0;
    while i < tail.len()
        invariant
            i <= tail@.len(),
            out@ == old(out)@ + tail@.subrange(0, i as int),
        decreases tail@.len() - i,
    {
        out.push(tail[i]);
        i = i + 1;
        assert(out@ =~= old(out)@ + tail@.subrange(0, i as int));
    }
    assert(tail@.subrange(0, tail@.len() as int) =~= tail@);
}

/// The selector of the EVM token's `balanceOf(address)`.
pub fn evm_balance_of_selector() -> (selector: [u8; 4])
    ensures
        selector@ == keccak256(vstd::string::StringSliceAdditionalSpecFns::spec_bytes("balanceOf(address)")).subrange(
            0,
            4,
        ),
{
    selector("balanceOf(address)".as_bytes())
}

/// The selector of the Wasm token's `wasmCallEvm` message.
pub fn wasm_call_evm_selector() -> (selector: [u8; 4])
    ensures
        selector@ == keccak256(vstd::string::StringSliceAdditionalSpecFns::spec_bytes("wasmCallEvm")).subrange(
            0,
            4,
        ),
{
    selector("wasmCallEvm".as_bytes())
}

/// The selector of the Wasm token's `balanceOf` message.
pub fn wasm_balance_of_selector() -> (selector: [u8; 4])
    ensures
        selector@ == keccak256(vstd::string::StringSliceAdditionalSpecFns::spec_bytes("balanceOf")).subrange(
            0,
            4,
        ),
{
    selector("balanceOf".as_bytes())
}

/// The selector of the EVM token's `evmCallWasm(bytes32,uint256,bytes32)`.
pub fn evm_call_wasm_selector() -> (selector: [u8; 4])
    ensures
        selector@ == keccak256(vstd::string::StringSliceAdditionalSpecFns::spec_bytes("evmCallWasm(bytes32,uint256,bytes32)")).subrange(
            0,
            4,
        ),
{
    selector("evmCallWasm(bytes32,uint256,bytes32)".as_bytes())
}

/// The input of an EVM `balanceOf` call: the selector, the holder's twenty
/// bytes, then the two bytes `0x00 0x0c`.
pub fn evm_balance_of_input(selector: &[u8; 4], holder: &[u8; 20]) -> (input: Vec<u8>)
    ensures
        input@ == selector@ + holder@ + seq![0u8, 12u8],
{
    let mut input: Vec<u8> = Vec::new();
    push_all(&mut input, selector);
    push_all(&mut input, holder);
    input.push(0u8);
    input.push(12u8);
    assert(input@ =~= selector@ + holder@ + seq![0u8, 12u8]);
    input
}

/// The message that asks the Wasm contract to make an EVM token transfer:
/// the selector, the EVM contract's address, the recipient's address, each
/// as twenty bytes, then the amount as sixteen bytes, least significant first.
pub fn wasm_call_evm_input(
    selector: &[u8; 4],
    evm_contract: &[u8; 20],
    recipient: &[u8; 20],
    value: u128,
) -> (input: Vec<u8>)
    ensures
        input@.len() == 60,
        input@.subrange(0, 44) == selector@ + evm_contract@ + recipient@,
        le_value(input@.subrange(44, 60)) == value,
{
    let mut input: Vec<u8> = Vec::new();
    push_all(&mut input, selector);
    let contract_bytes = scale_encode_bytes20(evm_contract);
    push_all(&mut input, contract_bytes.as_slice());
    let recipient_bytes = scale_encode_bytes20(recipient);
    push_all(&mut input, recipient_bytes.as_slice());
    let value_bytes = scale_encode_u128(value);
    push_all(&mut input, value_bytes.as_slice());
    assert(input@.subrange(0, 44) =~= selector@ + evm_contract@ + recipient@);
    assert(input@.subrange(44, 60) =~= value_bytes@);
    input
}

/// The message that asks the Wasm token for a balance: the selector, then the
/// holder's twenty bytes.
pub fn wasm_balance_of_input(selector: &[u8; 4], holder: &[u8; 20]) -> (input: Vec<u8>)
    ensures
        input@ == selector@ + holder@,
{
    let mut input: Vec<u8> = Vec::new();
    push_all(&mut input, selector);
    let holder_bytes = scale_encode_bytes20(holder);
    push_all(&mut input, holder_bytes.as_slice());
    input
}

/// The input of an EVM call that makes the Wasm token transfer: the selector,
/// the recipient's twenty bytes, the two bytes `0x00 0x10`, the amount as
/// sixteen bytes, most significant first, then the Wasm contract's account.
pub fn evm_call_wasm_input(
    selector: &[u8; 4],
    recipient: &[u8; 20],
    value: u128,
    wasm_contract: &[u8; 32],
) -> (input: Vec<u8>)
    ensures
        input@.len() == 74,
        input@.subrange(0, 26) == selector@ + recipient@ + seq![0u8, 16u8],
        be_value(input@.subrange(26, 42)) == value,
        input@.subrange(42, 74) == wasm_contract@,
{
    let mut input: Vec<u8> = Vec::new();
    push_all(&mut input, selector);
    push_all(&mut input, recipient);
    input.push(0u8);
    input.push(16u8);
    let value_bytes = u128_to_be_bytes(value);
    push_all(&mut input, &value_bytes);
    push_all(&mut input, wasm_contract);
    assert(input@.subrange(0, 26) =~= selector@ + recipient@ + seq![0u8, 16u8]);
    assert(input@.subrange(26, 42) =~= value_bytes@);
    assert(input@.subrange(42, 74) =~= wasm_contract@);
    input
}

/// The balance in an EVM `balanceOf` answer: bytes 16 to 32, most
/// significant first.
pub fn evm_balance_from_output(output: &[u8]) -> (balance: u128)
    requires
        output@.len() >= 32,
    ensures
        balance == be_value(output@.subrange(16, 32)),
{
    let mut word: [u8; 16] = [0u8; 16];
    let mut i: usize = 0;
    while i < 16
        invariant
            i <= 16,
            word@.len() == 16,
            output@.len() >= 32,
            forall|j: int| 0 <= j < i ==> word@[j] == output@[16 + j],
        decreases 16 - i,
    {
        word[i] = output[16 + i];
        i = i + 1;
    }
    assert(word@ =~= output@.subrange(16, 32));
    u128_from_be_bytes(&word)
}

/// Why the Wasm token's answer could not be read as a balance.
pub enum BalanceError {
    /// The codec refused the bytes (there are fewer than sixteen).
    Codec(parity_scale_codec::Error),
}

/// The balance in a Wasm `balanceOf` answer: its first sixteen bytes, least
/// significant first. Fails exactly when the answer is shorter.
pub fn wasm_balance_from_output(output: &[u8]) -> (balance: Result<u128, BalanceError>)
    ensures
        balance is Ok <==> output@.len() >= 16,
        balance matches Ok(v) ==> v == le_value(output@.subrange(0, 16)),
{
    match scale_decode_u128(output) {
        Ok(v) => Ok(v),
        Err(e) => Err(BalanceError::Codec(e)),
    }
}

/// The amount written into a `wasmCallEvm` message is read back unchanged by
/// the Wasm balance reader applied to the amount field.
pub proof fn law_wasm_transfer_amount_readable(input: Seq<u8>, value: u128)
    requires
        input.len() == 60,
        le_value(input.subrange(44, 60)) == value,
    ensures
        le_value(input.subrange(44, 60).subrange(0, 16)) == value,
{
    assert(input.subrange(44, 60).subrange(0, 16) =~= input.subrange(44, 60));
}

/// The amount written into an `evmCallWasm` input is read back unchanged by
/// the EVM balance reader from a word that carries the amount field in its
/// low half.
pub proof fn law_evm_transfer_amount_readable(input: Seq<u8>, value: u128, word: Seq<u8>)
    requires
        input.len() == 74,
        be_value(input.subrange(26, 42)) == value,
        word.len() == 32,
        word.subrange(16, 32) == input.subrange(26, 42),
    ensures
        be_value(word.subrange(16, 32)) == value,
{
}

/// A selector is the first four bytes of the Keccak-256 digest of the whole
/// signature, whatever its length.
pub proof fn law_selector_is_digest_prefix(signature: Seq<u8>)
    ensures
        spec_selector(signature) == keccak256(signature).subrange(0, 4),
{
}

/// The bytes of a signature are its UTF-8 encoding, all of it.
pub proof fn law_signature_bytes_are_utf8(signature: &str)
    ensures
        signature_bytes(signature) == vstd::string::StringSliceAdditionalSpecFns::spec_bytes(
            signature,
        ),
{
}

} // verus!
