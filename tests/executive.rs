use fintradex_runtime::call::{
    AccountId32, DispatchClass, DispatchInfo, EthereumCall, EthereumSignature,
    EthereumTransaction, Origin, RuntimeCall, SystemCall, H160,
};
use fintradex_runtime::executive::{apply_extrinsic, fill_block, ApplyState, Extrinsic};
use fintradex_runtime::extension::{ChainContext, Era, SenderAccount, SignedExtrinsic};
use fintradex_runtime::self_contained::{EvmAccount, EvmConfig, INVALID_SIGNATURE};
use fintradex_runtime::validity::{InvalidTransaction, TransactionValidityError, UnknownTransaction};
use fintradex_runtime::weight::Weight;

fn state() -> ApplyState {
    ApplyState {
        context: ChainContext {
            block_number: 10,
            genesis_hash: [0u8; 32],
            spec_version: 1,
            transaction_version: 1,
            metadata_hash_known: true,
            block_weight: Weight::zero(),
            max_block_weight: Weight::from_parts(2_000_000_000_000, 5_000_000),
            max_extrinsic_weight: Weight::from_parts(1_500_000_000_000, 5_000_000),
            block_length: 0,
            max_block_length: 1_000_000,
        },
        sender: SenderAccount { nonce: 0, free: 1_000_000_000_000 },
        evm_account: EvmAccount { nonce: 0, balance: 1_000_000_000 },
        evm_config: EvmConfig { chain_id: 42, block_gas_limit: 15_000_000, base_fee: 1 },
    }
}

fn info() -> DispatchInfo {
    DispatchInfo { weight: Weight::from_parts(1_000, 0), class: DispatchClass::Normal }
}

fn eth_call() -> RuntimeCall {
    RuntimeCall::Ethereum(EthereumCall::Transact {
        transaction: EthereumTransaction {
            nonce: 0,
            gas_price: 2,
            gas_limit: 21_000,
            value: 0,
            chain_id: 42,
            signature: EthereumSignature { v: 27, r: [1u8; 32], s: [1u8; 32] },
        },
    })
}

fn remark() -> RuntimeCall {
    RuntimeCall::System(SystemCall::Remark { remark: vec![0xAB] })
}

#[test]
fn signed_extrinsic_runs_under_its_signer() {
    let mut s = state();
    let xt = Extrinsic::Signed(SignedExtrinsic {
        sender: AccountId32 { bytes: [5u8; 32] },
        signature_valid: true,
        spec_version: 1,
        transaction_version: 1,
        genesis_hash: [0u8; 32],
        era: Era::Immortal,
        nonce: 0,
        tip: 0,
        metadata_hash_enabled: true,
        info: info(),
        len: 10,
        call: remark(),
    });
    let d = apply_extrinsic(&mut s, xt, None).unwrap();
    assert!(matches!(d.origin, Origin::Signed(AccountId32 { bytes }) if bytes == [5u8; 32]));
    assert_eq!(s.sender.nonce, 1);
    assert_eq!(s.evm_account.nonce, 0);
}

#[test]
fn self_contained_call_runs_under_recovered_signer() {
    let mut s = state();
    let xt = Extrinsic::Bare { call: eth_call(), info: info(), len: 120 };
    let d = apply_extrinsic(&mut s, xt, Some(H160 { bytes: [6u8; 20] })).unwrap();
    assert!(matches!(d.origin, Origin::EthereumTransaction(H160 { bytes }) if bytes == [6u8; 20]));
    assert_eq!(s.evm_account.nonce, 1);
    assert_eq!(s.sender.nonce, 0);
    assert_eq!(s.context.block_weight, Weight::from_parts(125_001_000, 0));
    assert_eq!(s.context.block_length, 120);
}

#[test]
fn unrecoverable_signature_never_dispatches() {
    let mut s = state();
    let xt = Extrinsic::Bare { call: eth_call(), info: info(), len: 120 };
    assert!(matches!(
        apply_extrinsic(&mut s, xt, None),
        Err(TransactionValidityError::Invalid(InvalidTransaction::Custom(c))) if c == INVALID_SIGNATURE
    ));
    assert_eq!(s.evm_account.nonce, 0);
}

#[test]
fn bare_ordinary_call_needs_a_signature() {
    let mut s = state();
    let xt = Extrinsic::Bare { call: remark(), info: info(), len: 5 };
    assert!(matches!(
        apply_extrinsic(&mut s, xt, Some(H160 { bytes: [6u8; 20] })),
        Err(TransactionValidityError::Unknown(UnknownTransaction::NoUnsignedValidator))
    ));
}

#[test]
fn block_stops_at_first_extrinsic_over_the_limit() {
    let limit = Weight::from_parts(100, 100);
    let queue = vec![
        Weight::from_parts(30, 10),
        Weight::from_parts(40, 10),
        Weight::from_parts(40, 10),
        Weight::from_parts(1, 1),
    ];
    assert_eq!(fill_block(&Weight::zero(), &queue, &limit), 2);
    assert_eq!(fill_block(&Weight::from_parts(0, 95), &queue, &limit), 0);
    assert_eq!(fill_block(&Weight::from_parts(0, 85), &queue, &limit), 1);
    assert_eq!(fill_block(&Weight::zero(), &vec![], &limit), 0);
    assert_eq!(fill_block(&Weight::from_parts(101, 0), &queue, &limit), 0);
    let exact = vec![Weight::from_parts(50, 50), Weight::from_parts(50, 50)];
    assert_eq!(fill_block(&Weight::zero(), &exact, &limit), 2);
}
