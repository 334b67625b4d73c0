//! Contract code for the tests: where it is found, how a `.wat` fixture
//! becomes a Wasm binary, and the code hash the runtime files it under.

use vstd::prelude::*;

use crate::hashing::{blake2_256, blake2_256_digest};

verus! {

#[verifier::external_type_specification]
#[verifier::external_body]
pub struct ExWatError(wat::Error);

/// The Wasm binary that the WebAssembly text in `source` stands for, or
/// `None` where `source` is not a valid module.
pub uninterp spec fn wat_to_wasm(source: Seq<u8>) -> Option<Seq<u8>>;

/// The four bytes that open every Wasm binary: `\0asm`.
pub open spec fn wasm_magic() -> Seq<u8> {
    seq![0u8, 0x61u8, 0x73u8, 0x6du8]
}

/// Whether `bytes` opens with the Wasm magic, i.e. is already a binary.
pub open spec fn starts_with_wasm_magic(bytes: Seq<u8>) -> bool {
    bytes.len() >= 4 && bytes.subrange(0, 4) == wasm_magic()
}

/// A byte string opens with the Wasm magic exactly when its first four
/// bytes are `0x00 0x61 0x73 0x6d` (`\0asm`).
pub proof fn law_wasm_magic(bytes: Seq<u8>)
    ensures
        starts_with_wasm_magic(bytes) <==> (bytes.len() >= 4 && bytes[0] == 0 && bytes[1] == 0x61
            && bytes[2] == 0x73 && bytes[3] == 0x6d),
{
    if bytes.len() >= 4 && bytes[0] == 0 && bytes[1] == 0x61 && bytes[2] == 0x73 && bytes[3] == 0x6d {
        assert(bytes.subrange(0, 4) =~= wasm_magic());
    }
    if starts_with_wasm_magic(bytes) {
        assert(bytes.subrange(0, 4)[1] == 0x61);
    }
}

/// Calls `wat::parse_bytes`. Trusted: its result is `wat_to_wasm` of the
/// source, and a source that already opens with `\0asm` comes back as it is.
/// What it answers for text is not stated beyond the name.
#[verifier::external_body]
fn wat_parse_bytes(source: &[u8]) -> (wasm: Result<Vec<u8>, wat::Error>)
    ensures
        match wasm {
            Ok(b) => wat_to_wasm(source@) == Some(b@) && (starts_with_wasm_magic(source@) ==> b@
                == source@),
            Err(_) => wat_to_wasm(source@) is None && !starts_with_wasm_magic(source@),
        },
{
    match wat::parse_bytes(source) {
        Ok(bytes) => Ok(bytes.into_owned()),
        Err(e) => Err(e),
    }
}

/// The path of a `.wat` fixture: `fixtures/<name>.wat`.
pub fn fixture_path(fixture_name: &str) -> (path: String)
    ensures
        path@ == "fixtures/"@ + fixture_name@ + ".wat"@,
{
    let mut path = "fixtures/".to_owned();
    path.append(fixture_name);
    path.append(".wat");
    path
}

/// The path of a compiled test contract: `test-contract/<name>`.
pub fn contract_path(contract_name: &str) -> (path: String)
    ensures
        path@ == "test-contract/"@ + contract_name@,
{
    let mut path = "test-contract/".to_owned();
    path.append(contract_name);
    path
}

/// A contract binary together with its code hash.
pub fn contract_module(contract_binary: Vec<u8>) -> (module: (Vec<u8>, [u8; 32]))
    ensures
        module.0@ == contract_binary@,
        module.1@ == blake2_256(contract_binary@),
{
    let code_hash = blake2_256_digest(contract_binary.as_slice());
    (contract_binary, code_hash)
}

/// Why a fixture could not be compiled.
pub enum ModuleError {
    /// The WebAssembly text does not describe a module.
    Wat(wat::Error),
}

/// Compiles WebAssembly text (or takes a binary as it is) and pairs the
/// binary with its code hash. Fails exactly when the text is not a module.
pub fn compile_module(wat_source: &[u8]) -> (module: Result<(Vec<u8>, [u8; 32]), ModuleError>)
    ensures
        module is Err <==> wat_to_wasm(wat_source@) is None,
        module matches Ok((wasm, hash)) ==> (wat_to_wasm(wat_source@) == Some(wasm@)
            && hash@ == blake2_256(wasm@)),
        starts_with_wasm_magic(wat_source@) ==> (module matches Ok((wasm, _)) && wasm@
            == wat_source@),
{
    match wat_parse_bytes(wat_source) {
        Ok(wasm) => Ok(contract_module(wasm)),
        Err(e) => Err(ModuleError::Wat(e)),
    }
}

} // verus!
