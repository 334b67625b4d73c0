//! The mock runtime of the bridge: its configuration values, the builder of
//! its genesis state, and the rules it answers with (the chain-extension
//! dispatch, the weight-to-fee conversion and the fixed gas price).

use vstd::prelude::*;

verus! {

/// The EVM chain id of the mock runtime.
pub const CHAIN_ID: u64 = 42;
/// The number of block hashes the system keeps.
pub const BLOCK_HASH_COUNT: u64 = 250;
/// One second of execution, in weight units.
pub const WEIGHT_PER_SECOND: u64 = 1_000_000_000_000;
/// The weight a block may hold: two seconds of execution.
pub const MAX_BLOCK_WEIGHT: u64 = 2 * WEIGHT_PER_SECOND;
/// The shortest time between two blocks, in milliseconds.
pub const MINIMUM_PERIOD: u64 = 1;
/// The gas limit the contract calls are made with.
pub const GAS_LIMIT: u64 = 10_000_000_000;
/// Whether the bridge may call into the EVM.
pub const ENABLE_TO_EVM: bool = true;
/// Whether the bridge may call into Wasm contracts.
pub const ENABLE_TO_WASM_CONTRACT: bool = true;
/// Contracts configuration: the handicap of a signed rent claim, in blocks.
pub const SIGNED_CLAIM_HANDICAP: u64 = 2;
/// Contracts configuration: the deposit left by a tombstone.
pub const TOMBSTONE_DEPOSIT: u64 = 16;
/// Contracts configuration: the deposit per byte of storage.
pub const DEPOSIT_PER_STORAGE_BYTE: u64 = 10_000;
/// Contracts configuration: the deposit per contract, eight bytes' worth.
pub const DEPOSIT_PER_CONTRACT: u64 = 8 * DEPOSIT_PER_STORAGE_BYTE;
/// Contracts configuration: the deposit per storage item.
pub const DEPOSIT_PER_STORAGE_ITEM: u64 = 10_000;
/// Contracts configuration: the rent fraction, 4 / 10 000, in parts per billion.
pub const RENT_FRACTION_PER_BILLION: u32 = 400_000;
/// Contracts configuration: the reward for evicting a contract.
pub const SURCHARGE_REWARD: u64 = 500_000;
/// Contracts configuration: the deepest call stack.
pub const MAX_DEPTH: u32 = 100;
/// Contracts configuration: the largest storage value, in bytes.
pub const MAX_VALUE_SIZE: u32 = 16_384;
/// Contracts configuration: the length of the deletion queue.
pub const DELETION_QUEUE_DEPTH: u32 = 1024;
/// Contracts configuration: the weight that lazy deletion may spend per block.
pub const DELETION_WEIGHT_LIMIT: u64 = 500_000_000_000;
/// Contracts configuration: the largest code, in bytes.
pub const MAX_CODE_SIZE: u32 = 10 * 1024;
/// The fee per transaction byte.
pub const TRANSACTION_BYTE_FEE: u64 = 0;

/// The 32-byte account every byte of which is `byte`.
pub open spec fn uniform_account(byte: u8) -> Seq<u8> {
    Seq::new(32, |i: int| byte)
}

/// The uniform account has thirty-two bytes, each of them `byte`.
pub proof fn law_uniform_account(byte: u8)
    ensures
        uniform_account(byte).len() == 32,
        forall|i: int| 0 <= i < 32 ==> uniform_account(byte)[i] == byte,
{
}

/// The account of Alice: thirty-two bytes of 1.
pub fn alice() -> (account: [u8; 32])
    ensures
        account@ == uniform_account(1),
{
    let account: [u8; 32] = [1u8; 32];
    assert(account@ =~= uniform_account(1));
    account
}

/// The account of Bob: thirty-two bytes of 2.
pub fn bob() -> (account: [u8; 32])
    ensures
        account@ == uniform_account(2),
{
    let account: [u8; 32] = [2u8; 32];
    assert(account@ =~= uniform_account(2));
    account
}

/// The fee calculator of the EVM: gas costs nothing.
pub struct FixedGasPrice;

impl FixedGasPrice {
    /// The least gas price the EVM accepts: zero.
    pub fn min_gas_price() -> (price: u128)
        ensures
            price == 0,
    {
        0
    }
}

/// The existential deposit that the runtime reads while it runs; it starts
/// at zero until a builder sets it.
pub struct ExistentialDeposit {
    value: u64,
}

impl ExistentialDeposit {
    /// The value the runtime reads.
    pub closed spec fn spec_get(&self) -> u64 {
        self.value
    }

    /// The deposit before any builder has set it: zero.
    pub fn new() -> (deposit: Self)
        ensures
            deposit.spec_get() == 0,
    {
        ExistentialDeposit { value: 0 }
    }

    /// The value the runtime reads.
    pub fn get(&self) -> (value: u64)
        ensures
            value == self.spec_get(),
    {
        self.value
    }
}

/// What the genesis of the mock runtime holds, to be written into storage.
pub struct GenesisPlan {
    /// The accounts endowed at genesis, with their balances.
    pub balances: Vec<([u8; 32], u128)>,
    /// Whether contracts may print (the contracts schedule's `enable_println`).
    pub contracts_enable_println: bool,
    /// The EVM accounts that exist at genesis.
    pub evm_accounts: Vec<[u8; 20]>,
    /// The block number the externalities start at.
    pub block_number: u64,
}

/// Builder of the mock runtime's test state.
pub struct ExtBuilder {
    existential_deposit: u64,
}

impl ExtBuilder {
    /// The existential deposit this builder will set.
    pub closed spec fn spec_existential_deposit(&self) -> u64 {
        self.existential_deposit
    }

    /// The builder with an existential deposit of `existential_deposit`.
    pub fn existential_deposit(self, existential_deposit: u64) -> (builder: Self)
        ensures
            builder.spec_existential_deposit() == existential_deposit,
    {
        let mut builder = self;
        builder.existential_deposit = existential_deposit;
        builder
    }

    /// Makes the runtime read this builder's existential deposit.
    pub fn set_associated_consts(&self, deposit: &mut ExistentialDeposit)
        ensures
            final(deposit).spec_get() == self.spec_existential_deposit(),
    {
        deposit.value = self.existential_deposit;
    }

    /// Sets the associated constants and plans the genesis: no endowed
    /// balance, contracts that may print, no EVM account, and block number 1.
    pub fn build(self, deposit: &mut ExistentialDeposit) -> (plan: GenesisPlan)
        ensures
            final(deposit).spec_get() == self.spec_existential_deposit(),
            plan.balances@.len() == 0,
            plan.contracts_enable_println,
            plan.evm_accounts@.len() == 0,
            plan.block_number == 1,
    {
        self.set_associated_consts(deposit);
        GenesisPlan {
            balances: Vec::new(),
            contracts_enable_println: true,
            evm_accounts: Vec::new(),
            block_number: 1,
        }
    }
}

impl Default for ExtBuilder {
    /// The builder with an existential deposit of 1.
    fn default() -> (builder: Self)
        ensures
            builder.spec_existential_deposit() == 1,
    {
        ExtBuilder { existential_deposit: 1 }
    }
}

/// What a chain-extension call is handed to.
#[derive(PartialEq, Eq, Structural, Debug, Clone, Copy)]
pub enum ChainExtensionCall {
    /// A Wasm contract calls into the EVM through the bridge.
    CallEvmForWasm,
}

/// A refused dispatch.
#[derive(PartialEq, Eq, Structural, Debug, Clone, Copy)]
pub enum DispatchError {
    /// The chain extension has no function with the given id.
    UnknownFuncId,
}

impl DispatchError {
    /// The message of the error.
    pub fn message(&self) -> (message: &'static str)
        ensures
            message@ == "Passed unknown func_id to chain extension"@,
    {
        match self {
            DispatchError::UnknownFuncId => "Passed unknown func_id to chain extension",
        }
    }
}

/// The mock runtime.
pub struct Test;

impl Test {
    /// The chain-extension dispatch: function 0 is the bridge's EVM call;
    /// every other id is refused.
    pub fn call(func_id: u32) -> (call: Result<ChainExtensionCall, DispatchError>)
        ensures
            func_id == 0 ==> call == Ok::<ChainExtensionCall, DispatchError>(
                ChainExtensionCall::CallEvmForWasm,
            ),
            func_id != 0 ==> call == Err::<ChainExtensionCall, DispatchError>(
                DispatchError::UnknownFuncId,
            ),
    {
        match func_id {
            0 => Ok(ChainExtensionCall::CallEvmForWasm),
            _ => Err(DispatchError::UnknownFuncId),
        }
    }

    /// Converts a weight into the balance paid for it, one for one.
    pub fn convert(w: u64) -> (balance: u128)
        ensures
            balance == w,
    {
        w as u128
    }
}

} // verus!
