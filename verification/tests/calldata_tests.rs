use parity_scale_codec::Encode;
use sha3::Digest;
use vm_bridge_mock::bytes::{u128_from_be_bytes, u128_to_be_bytes};
use vm_bridge_mock::calldata::{
    evm_address, evm_balance_from_output, evm_balance_of_input, evm_balance_of_selector,
    evm_call_wasm_input, evm_call_wasm_selector, selector, selector_from_digest,
    wasm_balance_from_output, wasm_balance_of_input, wasm_balance_of_selector,
    wasm_call_evm_input, wasm_call_evm_selector,
};
use vm_bridge_mock::runtime::{alice, bob};

const TRANSFER_VALUE: u128 = 12000000000000000000;

fn keccak_prefix(signature: &[u8]) -> [u8; 4] {
    let digest = sha3::Keccak256::digest(signature);
    [digest[0], digest[1], digest[2], digest[3]]
}

#[test]
fn evm_address_is_account_prefix() {
    assert_eq!(evm_address(&alice()), [1u8; 20]);
    assert_eq!(evm_address(&bob()), [2u8; 20]);
    let mut account = [0u8; 32];
    for (i, b) in account.iter_mut().enumerate() {
        *b = i as u8;
    }
    let address = evm_address(&account);
    assert_eq!(&address[..], &account[0..20]);
}

#[test]
fn known_selectors() {
    assert_eq!(evm_balance_of_selector(), [0x70, 0xa0, 0x82, 0x31]);
    assert_eq!(selector(b"transfer(address,uint256)"), [0xa9, 0x05, 0x9c, 0xbb]);
    assert_eq!(selector(b""), [0xc5, 0xd2, 0x46, 0x01]);
}

#[test]
fn selectors_match_keccak() {
    assert_eq!(wasm_call_evm_selector(), keccak_prefix(b"wasmCallEvm"));
    assert_eq!(wasm_balance_of_selector(), keccak_prefix(b"balanceOf"));
    assert_eq!(
        evm_call_wasm_selector(),
        keccak_prefix(b"evmCallWasm(bytes32,uint256,bytes32)")
    );
}

#[test]
fn selector_from_digest_takes_first_four_bytes() {
    let mut digest = [0u8; 32];
    for (i, b) in digest.iter_mut().enumerate() {
        *b = 100 + i as u8;
    }
    assert_eq!(selector_from_digest(&digest), [100, 101, 102, 103]);
}

#[test]
fn evm_balance_of_input_layout() {
    let sel = evm_balance_of_selector();
    let holder = evm_address(&bob());
    let input = evm_balance_of_input(&sel, &holder);
    let expected = [&sel[..], &holder[..], &[0u8, 12][..]].concat();
    assert_eq!(input, expected);
    assert_eq!(input.len(), 26);
}

#[test]
fn wasm_call_evm_input_layout() {
    let sel = wasm_call_evm_selector();
    let evm_contract = [9u8; 20];
    let recipient = evm_address(&bob());
    let input = wasm_call_evm_input(&sel, &evm_contract, &recipient, TRANSFER_VALUE);
    let expected = [
        &sel[..],
        &evm_contract[..],
        &recipient[..],
        &TRANSFER_VALUE.to_le_bytes()[..],
    ]
    .concat();
    assert_eq!(input, expected);
    assert_eq!(wasm_balance_from_output(&input[44..]).ok(), Some(TRANSFER_VALUE));
}

#[test]
fn wasm_balance_of_input_layout() {
    let sel = wasm_balance_of_selector();
    let holder = evm_address(&bob());
    let input = wasm_balance_of_input(&sel, &holder);
    assert_eq!(input, [&sel[..], &holder[..]].concat());
}

#[test]
fn evm_call_wasm_input_layout() {
    let sel = evm_call_wasm_selector();
    let recipient = evm_address(&bob());
    let wasm_contract = alice();
    let input = evm_call_wasm_input(&sel, &recipient, TRANSFER_VALUE, &wasm_contract);
    let expected = [
        &sel[..],
        &recipient[..],
        &[0u8, 16][..],
        &TRANSFER_VALUE.to_be_bytes()[..],
        &wasm_contract[..],
    ]
    .concat();
    assert_eq!(input, expected);
    assert_eq!(input.len(), 74);
}

#[test]
fn evm_balance_reads_low_half_of_word() {
    let mut word = [0u8; 32];
    word[16..32].copy_from_slice(&TRANSFER_VALUE.to_be_bytes());
    assert_eq!(evm_balance_from_output(&word), TRANSFER_VALUE);
    let mut longer = word.to_vec();
    longer.extend_from_slice(&[0xff; 8]);
    assert_eq!(evm_balance_from_output(&longer), TRANSFER_VALUE);
    assert_eq!(evm_balance_from_output(&[0u8; 32]), 0);
}

#[test]
fn wasm_balance_decoding() {
    assert_eq!(wasm_balance_from_output(&TRANSFER_VALUE.encode()).ok(), Some(TRANSFER_VALUE));
    assert_eq!(wasm_balance_from_output(&u128::MAX.encode()).ok(), Some(u128::MAX));
    assert!(wasm_balance_from_output(&[0u8; 15]).is_err());
    assert!(wasm_balance_from_output(&[]).is_err());
    let mut bytes = 5u128.encode();
    bytes.push(77);
    assert_eq!(wasm_balance_from_output(&bytes).ok(), Some(5));
}

#[test]
fn balance_after_transfer_adds_the_value() {
    let before: u128 = 1_000;
    let after_bytes = (before + TRANSFER_VALUE).encode();
    let before_bytes = before.encode();
    let after = wasm_balance_from_output(&after_bytes).ok().unwrap();
    let before = wasm_balance_from_output(&before_bytes).ok().unwrap();
    assert_eq!(after, before + TRANSFER_VALUE);
}

#[test]
fn be_bytes_roundtrip() {
    for v in [0u128, 1, 255, 256, TRANSFER_VALUE, u128::MAX] {
        let bytes = u128_to_be_bytes(v);
        assert_eq!(bytes, v.to_be_bytes());
        assert_eq!(u128_from_be_bytes(&bytes), v);
    }
    let raw = [0xabu8; 16];
    assert_eq!(u128_to_be_bytes(u128_from_be_bytes(&raw)), raw);
}
