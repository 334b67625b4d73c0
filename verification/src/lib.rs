//! Verified helpers around a cross-VM bridge runtime: the values a mock runtime
//! is built from, the chain-extension dispatch rule, and the byte layout of the
//! calls that move tokens between an EVM contract and a Wasm contract.

pub mod bytes;
pub mod hashing;
pub mod scale;
pub mod calldata;
pub mod runtime;
pub mod modules;
