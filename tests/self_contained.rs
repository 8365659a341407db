use fintradex_runtime::call::{
    AccountId32, BalancesCall, DispatchClass, DispatchInfo, EthereumCall, EthereumSignature,
    EthereumTransaction, Origin, RuntimeCall, SystemCall, H160,
};
use fintradex_runtime::self_contained::{
    EvmAccount, EvmConfig, GAS_LIMIT_TOO_HIGH, GAS_PRICE_TOO_LOW, INVALID_CHAIN_ID,
    INVALID_SIGNATURE,
};
use fintradex_runtime::validity::{InvalidTransaction, TransactionValidityError, ValidTransaction};
use fintradex_runtime::extension::ChainContext;
use fintradex_runtime::weight::Weight;

fn block() -> ChainContext {
    ChainContext {
        block_number: 1,
        genesis_hash: [0u8; 32],
        spec_version: 1,
        transaction_version: 1,
        metadata_hash_known: false,
        block_weight: Weight::zero(),
        max_block_weight: Weight::from_parts(2_000_000_000_000, 5_000_000),
        max_extrinsic_weight: Weight::from_parts(1_500_000_000_000, 5_000_000),
        block_length: 0,
        max_block_length: 1_000_000,
    }
}

fn config() -> EvmConfig {
    EvmConfig { chain_id: 42, block_gas_limit: 15_000_000, base_fee: 1_000 }
}

fn eth(nonce: u64) -> RuntimeCall {
    RuntimeCall::Ethereum(EthereumCall::Transact {
        transaction: EthereumTransaction {
            nonce,
            gas_price: 1_500,
            gas_limit: 21_000,
            value: 1_000_000,
            chain_id: 42,
            signature: EthereumSignature { v: 27, r: [3u8; 32], s: [4u8; 32] },
        },
    })
}

fn with_tx(f: impl Fn(&mut EthereumTransaction)) -> RuntimeCall {
    match eth(0) {
        RuntimeCall::Ethereum(EthereumCall::Transact { mut transaction }) => {
            f(&mut transaction);
            RuntimeCall::Ethereum(EthereumCall::Transact { transaction })
        }
        _ => unreachable!(),
    }
}

fn info() -> DispatchInfo {
    DispatchInfo { weight: Weight::from_parts(500_000_000, 0), class: DispatchClass::Normal }
}

fn signer() -> H160 {
    H160 { bytes: [9u8; 20] }
}

fn account(nonce: u64) -> EvmAccount {
    EvmAccount { nonce, balance: 1_000_000_000 }
}

fn pre(call: &RuntimeCall, acct: &EvmAccount) -> Option<Result<(), TransactionValidityError>> {
    let mut c = block();
    let r = call.pre_dispatch_self_contained(&signer(), &info(), 120, acct, &config(), &mut c);
    if r == Some(Ok(())) {
        assert_eq!(c.block_weight, Weight::from_parts(625_000_000, 0));
        assert_eq!(c.block_length, 120);
    } else {
        assert_eq!(c.block_weight, Weight::zero());
        assert_eq!(c.block_length, 0);
    }
    r
}

#[test]
fn only_ethereum_calls_are_self_contained() {
    assert!(eth(0).is_self_contained());
    let others = [
        RuntimeCall::System(SystemCall::Remark { remark: vec![1, 2] }),
        RuntimeCall::Balances(BalancesCall::TransferAllowDeath {
            dest: AccountId32 { bytes: [2u8; 32] },
            value: 1,
        }),
        RuntimeCall::Other { pallet_index: 35, call_index: 1, args: vec![] },
    ];
    for c in others.iter() {
        assert!(!c.is_self_contained());
        assert!(c.check_self_contained(Some(signer())).is_none());
        assert!(c.validate_self_contained(&signer(), &info(), 10, &account(0), &config(), &block()).is_none());
        assert!(pre(c, &account(0)).is_none());
        let mut a = account(0);
        assert!(c.clone().apply_self_contained(signer(), &mut a).is_none());
        assert_eq!(a, account(0));
    }
}

#[test]
fn check_returns_the_recovered_signer() {
    match eth(0).check_self_contained(Some(signer())) {
        Some(Ok(a)) => assert_eq!(a.bytes, [9u8; 20]),
        _ => panic!("signer not recovered"),
    }
}

#[test]
fn wrongly_signed_call_fails_check_and_never_dispatches() {
    assert_eq!(
        eth(0).check_self_contained(None).map(|r| r.map(|a| a.bytes)),
        Some(Err(TransactionValidityError::Invalid(InvalidTransaction::Custom(INVALID_SIGNATURE))))
    );
}

#[test]
fn validation_is_repeatable() {
    let c = eth(2);
    let a = account(1);
    let first = c.validate_self_contained(&signer(), &info(), 120, &a, &config(), &block());
    let second = c.validate_self_contained(&signer(), &info(), 120, &a, &config(), &block());
    assert_eq!(first, second);
    assert_eq!(
        first,
        Some(Ok(ValidTransaction {
            priority: 500,
            required_nonce: Some(1),
            provided_nonce: 2,
            longevity: u64::MAX,
            propagate: true,
        }))
    );
}

#[test]
fn validation_errors() {
    let v = |c: &RuntimeCall, a: &EvmAccount| {
        c.validate_self_contained(&signer(), &info(), 120, a, &config(), &block()).unwrap().unwrap_err()
    };
    let inv = |e| TransactionValidityError::Invalid(e);
    assert_eq!(v(&with_tx(|t| t.chain_id = 1), &account(0)), inv(InvalidTransaction::Custom(INVALID_CHAIN_ID)));
    assert_eq!(v(&with_tx(|t| t.gas_limit = 15_000_001), &account(0)), inv(InvalidTransaction::Custom(GAS_LIMIT_TOO_HIGH)));
    assert_eq!(v(&with_tx(|t| t.gas_price = 999), &account(0)), inv(InvalidTransaction::Custom(GAS_PRICE_TOO_LOW)));
    assert_eq!(v(&eth(0), &account(1)), inv(InvalidTransaction::Stale));
    assert_eq!(v(&with_tx(|t| t.value = 999_000_000), &account(0)), inv(InvalidTransaction::Payment));
    assert_eq!(v(&with_tx(|t| t.gas_price = u128::MAX), &account(0)), inv(InvalidTransaction::Payment));
}

#[test]
fn upfront_cost_exactly_affordable() {
    // 21_000 * 1_500 + 1_000_000 = 32_500_000
    let a = EvmAccount { nonce: 0, balance: 32_500_000 };
    assert_eq!(pre(&eth(0), &a), Some(Ok(())));
    let b = EvmAccount { nonce: 0, balance: 32_499_999 };
    assert_eq!(pre(&eth(0), &b), Some(Err(TransactionValidityError::Invalid(InvalidTransaction::Payment))));
}

#[test]
fn only_the_next_nonce_passes_pre_dispatch() {
    let mut a = account(7);
    let first = eth(7);
    let second = eth(8);
    assert_eq!(pre(&second, &a), Some(Err(TransactionValidityError::Invalid(InvalidTransaction::Future))));
    assert_eq!(pre(&first, &a), Some(Ok(())));
    let d = first.clone().apply_self_contained(signer(), &mut a).unwrap();
    assert!(matches!(d.origin, Origin::EthereumTransaction(H160 { bytes }) if bytes == [9u8; 20]));
    assert!(matches!(d.call, RuntimeCall::Ethereum(_)));
    assert_eq!(a.nonce, 8);
    assert_eq!(pre(&second, &a), Some(Ok(())));
    assert_eq!(pre(&first, &a), Some(Err(TransactionValidityError::Invalid(InvalidTransaction::Stale))));
}

use fintradex_runtime::self_contained::{Phase, SelfContainedFlow};

#[test]
fn flow_runs_every_phase_in_order() {
    let mut f = SelfContainedFlow::new(eth(0));
    assert!(matches!(f.phase, Phase::Unclassified));
    f.classify();
    assert!(matches!(f.phase, Phase::Classified));
    f.check(Some(signer()));
    assert!(matches!(f.phase, Phase::Recovered(_)));
    let mut a = account(0);
    f.validate(&info(), 120, &a, &config(), &block());
    assert!(matches!(f.phase, Phase::Validated(_, v) if v.provided_nonce == 0 && v.priority == 500));
    let mut c = block();
    f.pre_dispatch(&info(), 120, &a, &config(), &mut c);
    assert_eq!(c.block_length, 120);
    assert!(matches!(f.phase, Phase::PreDispatched(H160 { bytes }) if bytes == [9u8; 20]));
    let d = f.apply(&mut a);
    assert!(matches!(d.origin, Origin::EthereumTransaction(H160 { bytes }) if bytes == [9u8; 20]));
    assert_eq!(a.nonce, 1);
}

#[test]
fn flow_for_ordinary_call_is_not_applicable() {
    let mut f = SelfContainedFlow::new(RuntimeCall::System(SystemCall::Remark { remark: vec![] }));
    f.classify();
    assert!(matches!(f.phase, Phase::NotApplicable));
}

#[test]
fn flow_rejects_bad_signature_and_stale_nonce() {
    let mut f = SelfContainedFlow::new(eth(0));
    f.classify();
    f.check(None);
    assert!(matches!(
        f.phase,
        Phase::Rejected(TransactionValidityError::Invalid(InvalidTransaction::Custom(c))) if c == INVALID_SIGNATURE
    ));
    let mut g = SelfContainedFlow::new(eth(0));
    g.classify();
    g.check(Some(signer()));
    g.validate(&info(), 120, &account(0), &config(), &block());
    assert!(matches!(g.phase, Phase::Validated(..)));
    let mut c = block();
    g.pre_dispatch(&info(), 120, &account(1), &config(), &mut c);
    assert_eq!(c.block_length, 0);
    assert!(matches!(g.phase, Phase::Rejected(TransactionValidityError::Invalid(InvalidTransaction::Stale))));
}

#[test]
fn self_contained_call_needs_room_in_the_block() {
    let mut full = block();
    full.block_weight = Weight::from_parts(1_999_999_999_999, 0);
    assert!(eth(0).validate_self_contained(&signer(), &info(), 120, &account(0), &config(), &full).unwrap().is_ok());
    let before = full;
    assert_eq!(
        eth(0).pre_dispatch_self_contained(&signer(), &info(), 120, &account(0), &config(), &mut full),
        Some(Err(TransactionValidityError::Invalid(InvalidTransaction::ExhaustsResources)))
    );
    assert_eq!(full.block_weight, before.block_weight);
    let heavy = DispatchInfo { weight: Weight::from_parts(1_500_000_000_000, 0), class: DispatchClass::Normal };
    assert_eq!(
        eth(0).validate_self_contained(&signer(), &heavy, 120, &account(0), &config(), &block()),
        Some(Err(TransactionValidityError::Invalid(InvalidTransaction::ExhaustsResources)))
    );
}

use fintradex_runtime::validity::NONCE_AT_MAXIMUM;

#[test]
fn largest_nonce_is_refused_so_apply_always_moves_on() {
    let top = with_tx(|t| t.nonce = u64::MAX);
    let a = EvmAccount { nonce: u64::MAX, balance: 1_000_000_000 };
    let refused = TransactionValidityError::Invalid(InvalidTransaction::Custom(NONCE_AT_MAXIMUM));
    assert_eq!(pre(&top, &a), Some(Err(refused)));
    assert_eq!(
        top.validate_self_contained(&signer(), &info(), 120, &a, &config(), &block()),
        Some(Err(refused))
    );
    let below = with_tx(|t| t.nonce = u64::MAX - 1);
    let mut b = EvmAccount { nonce: u64::MAX - 1, balance: 1_000_000_000 };
    assert_eq!(pre(&below, &b), Some(Ok(())));
    below.clone().apply_self_contained(signer(), &mut b).unwrap();
    assert_eq!(b.nonce, u64::MAX);
    assert_eq!(pre(&below, &b), Some(Err(TransactionValidityError::Invalid(InvalidTransaction::Stale))));
}

#[test]
fn pre_dispatch_consumes_no_nonce_in_any_order() {
    let a = account(4);
    let (first, second) = (eth(4), eth(5));
    let future = Some(Err(TransactionValidityError::Invalid(InvalidTransaction::Future)));
    assert_eq!(pre(&second, &a), future);
    assert_eq!(pre(&first, &a), Some(Ok(())));
    assert_eq!(pre(&second, &a), future);
    assert_eq!(pre(&first, &a), Some(Ok(())));
    assert_eq!(a.nonce, 4);
}
