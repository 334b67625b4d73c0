use vm_bridge_mock::modules::{compile_module, contract_module, contract_path, fixture_path};

const EMPTY_BLAKE2_256: [u8; 32] = [
    0x0e, 0x57, 0x51, 0xc0, 0x26, 0xe5, 0x43, 0xb2, 0xe8, 0xab, 0x2e, 0xb0, 0x60, 0x99, 0xda,
    0xa1, 0xd1, 0xe5, 0xdf, 0x47, 0x77, 0x8f, 0x77, 0x87, 0xfa, 0xab, 0x45, 0xcd, 0xf1, 0x2f,
    0xe3, 0xa8,
];

#[test]
fn paths() {
    assert_eq!(fixture_path("dummy"), "fixtures/dummy.wat");
    assert_eq!(contract_path("wasm_contract_test"), "test-contract/wasm_contract_test");
    assert_eq!(contract_path("evm_contract_test"), "test-contract/evm_contract_test");
}

#[test]
fn contract_module_hashes_with_blake2() {
    let (code, hash) = contract_module(Vec::new());
    assert!(code.is_empty());
    assert_eq!(hash, EMPTY_BLAKE2_256);
    let binary = vec![1u8, 2, 3];
    let (code, hash) = contract_module(binary.clone());
    assert_eq!(code, binary);
    assert_eq!(hash, sp_crypto_hashing::blake2_256(&binary));
    assert_ne!(hash, EMPTY_BLAKE2_256);
}

#[test]
fn compile_module_from_text() {
    let (wasm, hash) = compile_module(b"(module)").ok().unwrap();
    assert_eq!(wasm, b"\0asm\x01\0\0\0".to_vec());
    assert_eq!(hash, sp_crypto_hashing::blake2_256(&wasm));
}

#[test]
fn compile_module_passes_binaries_through() {
    let binary = b"\0asm\x01\0\0\0".to_vec();
    let (wasm, _) = compile_module(&binary).ok().unwrap();
    assert_eq!(wasm, binary);
}

#[test]
fn compile_module_refuses_invalid_text() {
    assert!(compile_module(b"module").is_err());
    assert!(compile_module(&[0xff, 0xfe, 0x00]).is_err());
}
