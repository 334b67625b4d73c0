use vm_bridge_mock::runtime::{
    alice, bob, ChainExtensionCall, DispatchError, ExistentialDeposit, ExtBuilder, FixedGasPrice,
    Test, DEPOSIT_PER_CONTRACT, DEPOSIT_PER_STORAGE_BYTE, MAX_BLOCK_WEIGHT, MAX_CODE_SIZE,
    WEIGHT_PER_SECOND,
};

#[test]
fn existential_deposit_starts_at_zero() {
    assert_eq!(ExistentialDeposit::new().get(), 0);
}

#[test]
fn default_builder_sets_deposit_one() {
    let mut deposit = ExistentialDeposit::new();
    let plan = ExtBuilder::default().build(&mut deposit);
    assert_eq!(deposit.get(), 1);
    assert_eq!(plan.block_number, 1);
}

#[test]
fn builder_with_deposit_100_as_in_the_bridge_tests() {
    let mut deposit = ExistentialDeposit::new();
    let plan = ExtBuilder::default().existential_deposit(100).build(&mut deposit);
    assert_eq!(deposit.get(), 100);
    assert!(plan.balances.is_empty());
    assert!(plan.contracts_enable_println);
    assert!(plan.evm_accounts.is_empty());
    assert_eq!(plan.block_number, 1);
}

#[test]
fn set_associated_consts_publishes_the_deposit() {
    let mut deposit = ExistentialDeposit::new();
    let builder = ExtBuilder::default().existential_deposit(7);
    builder.set_associated_consts(&mut deposit);
    assert_eq!(deposit.get(), 7);
    let builder = builder.existential_deposit(0);
    builder.set_associated_consts(&mut deposit);
    assert_eq!(deposit.get(), 0);
}

#[test]
fn chain_extension_accepts_function_zero() {
    assert_eq!(Test::call(0), Ok(ChainExtensionCall::CallEvmForWasm));
}

#[test]
fn chain_extension_refuses_other_functions() {
    assert_eq!(Test::call(1), Err(DispatchError::UnknownFuncId));
    assert_eq!(Test::call(u32::MAX), Err(DispatchError::UnknownFuncId));
    assert_eq!(
        DispatchError::UnknownFuncId.message(),
        "Passed unknown func_id to chain extension"
    );
}

#[test]
fn weight_converts_one_for_one() {
    assert_eq!(Test::convert(0), 0u128);
    assert_eq!(Test::convert(10_000_000_000), 10_000_000_000u128);
    assert_eq!(Test::convert(u64::MAX), u64::MAX as u128);
}

#[test]
fn gas_is_free() {
    assert_eq!(FixedGasPrice::min_gas_price(), 0);
}

#[test]
fn configuration_values() {
    assert_eq!(DEPOSIT_PER_CONTRACT, 8 * DEPOSIT_PER_STORAGE_BYTE);
    assert_eq!(DEPOSIT_PER_CONTRACT, 80_000);
    assert_eq!(MAX_CODE_SIZE, 10_240);
    assert_eq!(MAX_BLOCK_WEIGHT, 2 * WEIGHT_PER_SECOND);
}

#[test]
fn alice_and_bob_accounts() {
    assert_eq!(alice(), [1u8; 32]);
    assert_eq!(bob(), [2u8; 32]);
}
