//! Calls that carry their own authorization: classification, signer recovery,
//! validation, pre-dispatch and dispatch with a derived origin.
use crate::extension::{add_base, count_in_block, counted, exceeds, exceeds_limits, with_base, ChainContext};
use crate::call::{DispatchInfo, Dispatch, EthereumCall, EthereumTransaction, H160, Origin, RuntimeCall};
use crate::validity::{
    NONCE_AT_MAXIMUM,
    InvalidTransaction, TransactionValidity, TransactionValidityError, ValidTransaction,
};
use vstd::prelude::*;

verus! {

/// Module-defined invalidity code: the transaction is for another chain.
pub const INVALID_CHAIN_ID: u8 = 1;

/// Module-defined invalidity code: no signer can be recovered from the signature.
pub const INVALID_SIGNATURE: u8 = 2;

/// Module-defined invalidity code: the gas limit exceeds the block's.
pub const GAS_LIMIT_TOO_HIGH: u8 = 3;

/// Module-defined invalidity code: the gas price is below the base fee.
pub const GAS_PRICE_TOO_LOW: u8 = 4;

/// State of a recovered signer's account.
#[derive(Clone, Copy, Debug, PartialEq, Eq, Structural)]
pub struct EvmAccount {
    pub nonce: u64,
    pub balance: u128,
}

/// Chain parameters that Ethereum transactions are checked against.
#[derive(Clone, Copy, Debug, PartialEq, Eq, Structural)]
pub struct EvmConfig {
    pub chain_id: u64,
    pub block_gas_limit: u64,
    pub base_fee: u128,
}

pub open spec fn custom(code: u8) -> TransactionValidityError {
    TransactionValidityError::Invalid(InvalidTransaction::Custom(code))
}

/// Most the sender may pay: the whole gas limit at the gas price, plus the value.
pub open spec fn upfront_cost(t: EthereumTransaction) -> int {
    t.gas_limit * t.gas_price + t.value
}

/// The checks that do not depend on the signer's state, in order.
pub open spec fn eth_precheck(t: EthereumTransaction, cfg: EvmConfig) -> Option<TransactionValidityError> {
    if t.chain_id != cfg.chain_id {
        Some(custom(INVALID_CHAIN_ID))
    } else if t.gas_limit > cfg.block_gas_limit {
        Some(custom(GAS_LIMIT_TOO_HIGH))
    } else if t.gas_price < cfg.base_fee {
        Some(custom(GAS_PRICE_TOO_LOW))
    } else {
        None
    }
}

pub open spec fn eth_priority(t: EthereumTransaction, cfg: EvmConfig) -> u64 {
    if t.gas_price - cfg.base_fee > u64::MAX { u64::MAX } else { (t.gas_price - cfg.base_fee) as u64 }
}

/// Whether the block's weight check refuses the call.
pub open spec fn eth_exhausts(ctx: ChainContext, info: DispatchInfo, len: int, at_dispatch: bool) -> bool {
    exceeds_limits(ctx, with_base(info.weight), len, at_dispatch)
}

/// Pool validation: the block's weight check first, then the transaction's own
/// checks. A nonce ahead of the account's is accepted and waits for its predecessor.
pub open spec fn eth_validate(t: EthereumTransaction, acct: EvmAccount, cfg: EvmConfig, ctx: ChainContext, info: DispatchInfo, len: int) -> TransactionValidity {
    if eth_exhausts(ctx, info, len, false) {
        Err(TransactionValidityError::Invalid(InvalidTransaction::ExhaustsResources))
    } else if eth_precheck(t, cfg) is Some {
        Err(eth_precheck(t, cfg).unwrap())
    } else if t.nonce == u64::MAX {
        Err(custom(NONCE_AT_MAXIMUM))
    } else if t.nonce < acct.nonce {
        Err(TransactionValidityError::Invalid(InvalidTransaction::Stale))
    } else if upfront_cost(t) > acct.balance {
        Err(TransactionValidityError::Invalid(InvalidTransaction::Payment))
    } else {
        Ok(ValidTransaction {
            priority: eth_priority(t, cfg),
            required_nonce: if t.nonce > acct.nonce { Some((t.nonce - 1) as u64) } else { None },
            provided_nonce: t.nonce,
            longevity: u64::MAX,
            propagate: true,
        })
    }
}

/// Pre-dispatch: the block must have room left, and the nonce must be exactly the
/// account's next one.
pub open spec fn eth_pre_dispatch(t: EthereumTransaction, acct: EvmAccount, cfg: EvmConfig, ctx: ChainContext, info: DispatchInfo, len: int) -> Result<(), TransactionValidityError> {
    if eth_exhausts(ctx, info, len, true) {
        Err(TransactionValidityError::Invalid(InvalidTransaction::ExhaustsResources))
    } else if eth_precheck(t, cfg) is Some {
        Err(eth_precheck(t, cfg).unwrap())
    } else if t.nonce == u64::MAX {
        Err(custom(NONCE_AT_MAXIMUM))
    } else if t.nonce < acct.nonce {
        Err(TransactionValidityError::Invalid(InvalidTransaction::Stale))
    } else if t.nonce > acct.nonce {
        Err(TransactionValidityError::Invalid(InvalidTransaction::Future))
    } else if upfront_cost(t) > acct.balance {
        Err(TransactionValidityError::Invalid(InvalidTransaction::Payment))
    } else {
        Ok(())
    }
}

/// The signer's account once a transaction has been applied: its nonce moves on.
pub open spec fn eth_applied(acct: EvmAccount) -> EvmAccount {
    EvmAccount { nonce: (acct.nonce + 1) as u64, balance: acct.balance }
}

fn precheck(t: &EthereumTransaction, cfg: &EvmConfig) -> (r: Option<TransactionValidityError>)
    ensures
        r == eth_precheck(*t, *cfg),
{
    if t.chain_id != cfg.chain_id {
        Some(TransactionValidityError::Invalid(InvalidTransaction::Custom(INVALID_CHAIN_ID)))
    } else if t.gas_limit > cfg.block_gas_limit {
        Some(TransactionValidityError::Invalid(InvalidTransaction::Custom(GAS_LIMIT_TOO_HIGH)))
    } else if t.gas_price < cfg.base_fee {
        Some(TransactionValidityError::Invalid(InvalidTransaction::Custom(GAS_PRICE_TOO_LOW)))
    } else {
        None
    }
}

fn can_afford(t: &EthereumTransaction, acct: &EvmAccount) -> (r: bool)
    ensures
        r == (upfront_cost(*t) <= acct.balance),
{
    match (t.gas_limit as u128).checked_mul(t.gas_price) {
        None => false,
        Some(gas) => match gas.checked_add(t.value) {
            None => false,
            Some(cost) => cost <= acct.balance,
        },
    }
}

impl RuntimeCall {
    pub open spec fn is_self_contained_spec(&self) -> bool {
        self is Ethereum
    }

    /// The Ethereum transaction this call carries, if it is one.
    pub open spec fn eth_transaction(&self) -> Option<EthereumTransaction> {
        match self {
            RuntimeCall::Ethereum(EthereumCall::Transact { transaction }) => Some(*transaction),
            _ => None,
        }
    }

    /// Whether the call carries its own authorization. Only Ethereum calls do.
    pub fn is_self_contained(&self) -> (r: bool)
        ensures
            r == self.is_self_contained_spec(),
    {
        match self {
            RuntimeCall::Ethereum(_) => true,
            _ => false,
        }
    }

    /// Signer recovery. `recovered` is the address recovered from the transaction's
    /// embedded signature, `None` when recovery fails.
    pub fn check_self_contained(&self, recovered: Option<H160>) -> (r: Option<Result<H160, TransactionValidityError>>)
        ensures
            !self.is_self_contained_spec() ==> r is None,
            self.is_self_contained_spec() ==> r == Some(match recovered {
                Some(a) => Ok(a),
                None => Err(custom(INVALID_SIGNATURE)),
            }),
    {
        match self {
            RuntimeCall::Ethereum(_) => match recovered {
                Some(a) => Some(Ok(a)),
                None => Some(Err(TransactionValidityError::Invalid(InvalidTransaction::Custom(INVALID_SIGNATURE)))),
            },
            _ => None,
        }
    }

    /// Pool validation of a self-contained call against the signer's account.
    /// Reads its arguments only.
    pub fn validate_self_contained(
        &self,
        info: &H160,
        dispatch_info: &DispatchInfo,
        len: usize,
        account: &EvmAccount,
        config: &EvmConfig,
        ctx: &ChainContext,
    ) -> (r: Option<TransactionValidity>)
        ensures
            r == match self.eth_transaction() {
                Some(t) => Some(eth_validate(t, *account, *config, *ctx, *dispatch_info, len as int)),
                None => None::<TransactionValidity>,
            },
    {
        match self {
            RuntimeCall::Ethereum(EthereumCall::Transact { transaction }) => {
                let t = transaction;
                if exceeds(ctx, &add_base(&dispatch_info.weight), len, false) {
                    return Some(Err(TransactionValidityError::Invalid(InvalidTransaction::ExhaustsResources)));
                }
                if let Some(e) = precheck(t, config) {
                    return Some(Err(e));
                }
                if t.nonce == u64::MAX {
                    return Some(Err(TransactionValidityError::Invalid(InvalidTransaction::Custom(NONCE_AT_MAXIMUM))));
                }
                if t.nonce < account.nonce {
                    return Some(Err(TransactionValidityError::Invalid(InvalidTransaction::Stale)));
                }
                if !can_afford(t, account) {
                    return Some(Err(TransactionValidityError::Invalid(InvalidTransaction::Payment)));
                }
                let gap = t.gas_price - config.base_fee;
                let priority: u64 = if gap > u64::MAX as u128 { u64::MAX } else { gap as u64 };
                let required = if t.nonce > account.nonce { Some(t.nonce - 1) } else { None };
                Some(Ok(ValidTransaction {
                    priority,
                    required_nonce: required,
                    provided_nonce: t.nonce,
                    longevity: u64::MAX,
                    propagate: true,
                }))
            },
            _ => None,
        }
    }

    /// The last admission check before execution, against the signer's current account
    /// and what the block has left. On success the block counts the call.
    pub fn pre_dispatch_self_contained(
        &self,
        info: &H160,
        dispatch_info: &DispatchInfo,
        len: usize,
        account: &EvmAccount,
        config: &EvmConfig,
        ctx: &mut ChainContext,
    ) -> (r: Option<Result<(), TransactionValidityError>>)
        ensures
            r == match self.eth_transaction() {
                Some(t) => Some(eth_pre_dispatch(t, *account, *config, *old(ctx), *dispatch_info, len as int)),
                None => None::<Result<(), TransactionValidityError>>,
            },
            r == Some(Ok::<(), TransactionValidityError>(())) ==> *final(ctx) == counted(*old(ctx), with_base(dispatch_info.weight), len as int),
            r != Some(Ok::<(), TransactionValidityError>(())) ==> *final(ctx) == *old(ctx),
            r == Some(Ok::<(), TransactionValidityError>(())) ==> final(ctx).block_weight.fits_in(final(ctx).max_block_weight)
                && final(ctx).block_length <= final(ctx).max_block_length,
    {
        match self {
            RuntimeCall::Ethereum(EthereumCall::Transact { transaction }) => {
                let t = transaction;
                let total = add_base(&dispatch_info.weight);
                if exceeds(ctx, &total, len, true) {
                    return Some(Err(TransactionValidityError::Invalid(InvalidTransaction::ExhaustsResources)));
                }
                if let Some(e) = precheck(t, config) {
                    return Some(Err(e));
                }
                if t.nonce == u64::MAX {
                    return Some(Err(TransactionValidityError::Invalid(InvalidTransaction::Custom(NONCE_AT_MAXIMUM))));
                }
                if t.nonce < account.nonce {
                    return Some(Err(TransactionValidityError::Invalid(InvalidTransaction::Stale)));
                }
                if t.nonce > account.nonce {
                    return Some(Err(TransactionValidityError::Invalid(InvalidTransaction::Future)));
                }
                if !can_afford(t, account) {
                    return Some(Err(TransactionValidityError::Invalid(InvalidTransaction::Payment)));
                }
                count_in_block(ctx, &total, len);
                Some(Ok(()))
            },
            _ => None,
        }
    }

    /// Dispatch under an origin tagged with the recovered signer. The signer's nonce
    /// moves on by one, so the transaction cannot pass pre-dispatch again; the call
    /// itself runs in its module. After pre-dispatch the account's nonce is the
    /// transaction's, which pre-dispatch keeps below the largest.
    pub fn apply_self_contained(self, info: H160, account: &mut EvmAccount) -> (r: Option<Dispatch>)
        requires
            self.eth_transaction() is Some ==> old(account).nonce < u64::MAX,
        ensures
            self.eth_transaction() is None ==> r is None && *final(account) == *old(account),
            self.eth_transaction() is Some ==> r == Some(Dispatch { origin: Origin::EthereumTransaction(info), call: self })
                && *final(account) == eth_applied(*old(account)),
            self.eth_transaction() is Some ==> final(account).nonce == old(account).nonce + 1,
    {
        match self {
            RuntimeCall::Ethereum(EthereumCall::Transact { .. }) => {
                account.nonce = account.nonce + 1;
                Some(Dispatch { origin: Origin::EthereumTransaction(info), call: self })
            },
            _ => None,
        }
    }
}

/// Of two transactions from one signer with nonces `n` and `n + 1`, both otherwise
/// acceptable: before the first is applied, the second fails pre-dispatch against any
/// block context, and the first passes wherever the block has room for it
/// (pre-dispatch reads the account and consumes no nonce). Once the first is applied,
/// it fails pre-dispatch against any block context, stale wherever the block has room,
/// and the second passes wherever the block has room for it.
pub proof fn lemma_nonce_ordering(
    t1: EthereumTransaction,
    t2: EthereumTransaction,
    acct: EvmAccount,
    cfg: EvmConfig,
    ctx: ChainContext,
    d1: DispatchInfo,
    len1: int,
    d2: DispatchInfo,
    len2: int,
)
    requires
        t1.nonce == acct.nonce,
        t2.nonce == t1.nonce + 1,
        eth_precheck(t1, cfg) is None,
        eth_precheck(t2, cfg) is None,
        t2.nonce < u64::MAX,
        upfront_cost(t1) <= acct.balance,
        upfront_cost(t2) <= acct.balance,
    ensures
        eth_pre_dispatch(t2, acct, cfg, ctx, d2, len2) is Err,
        !eth_exhausts(ctx, d2, len2, true) ==> eth_pre_dispatch(t2, acct, cfg, ctx, d2, len2)
            == Err::<(), TransactionValidityError>(TransactionValidityError::Invalid(InvalidTransaction::Future)),
        !eth_exhausts(ctx, d1, len1, true) ==> eth_pre_dispatch(t1, acct, cfg, ctx, d1, len1)
            == Ok::<(), TransactionValidityError>(()),
        eth_pre_dispatch(t1, eth_applied(acct), cfg, ctx, d1, len1) is Err,
        !eth_exhausts(ctx, d1, len1, true) ==> eth_pre_dispatch(t1, eth_applied(acct), cfg, ctx, d1, len1)
            == Err::<(), TransactionValidityError>(TransactionValidityError::Invalid(InvalidTransaction::Stale)),
        !eth_exhausts(ctx, d2, len2, true) ==> eth_pre_dispatch(t2, eth_applied(acct), cfg, ctx, d2, len2)
            == Ok::<(), TransactionValidityError>(()),
{
}

} // verus!

verus! {

/// Where a call stands in the self-contained protocol.
#[derive(Clone, Copy, Debug)]
pub enum Phase {
    Unclassified,
    /// Not self-contained: the call needs an attached signature and the classic chain.
    NotApplicable,
    /// Self-contained; its signer is not recovered yet.
    Classified,
    /// Refused at some phase; no later phase runs.
    Rejected(TransactionValidityError),
    Recovered(H160),
    Validated(H160, ValidTransaction),
    PreDispatched(H160),
}

/// One call driven through classification, recovery, validation, pre-dispatch and
/// dispatch, each step allowed only from the phase before it.
#[derive(Clone, Debug)]
pub struct SelfContainedFlow {
    pub call: RuntimeCall,
    pub phase: Phase,
}

impl SelfContainedFlow {
    pub fn new(call: RuntimeCall) -> (r: SelfContainedFlow)
        ensures
            r.call == call,
            r.phase is Unclassified,
    {
        SelfContainedFlow { call, phase: Phase::Unclassified }
    }

    /// Classification.
    pub fn classify(&mut self)
        requires
            old(self).phase is Unclassified,
        ensures
            final(self).call == old(self).call,
            old(self).call.is_self_contained_spec() ==> final(self).phase is Classified,
            !old(self).call.is_self_contained_spec() ==> final(self).phase is NotApplicable,
    {
        self.phase = if self.call.is_self_contained() { Phase::Classified } else { Phase::NotApplicable };
    }

    /// Signer recovery, from the address recovered from the embedded signature.
    pub fn check(&mut self, recovered: Option<H160>)
        requires
            old(self).phase is Classified,
            old(self).call.is_self_contained_spec(),
        ensures
            final(self).call == old(self).call,
            final(self).phase == match recovered {
                Some(a) => Phase::Recovered(a),
                None => Phase::Rejected(custom(INVALID_SIGNATURE)),
            },
    {
        self.phase = match self.call.check_self_contained(recovered) {
            Some(Ok(a)) => Phase::Recovered(a),
            Some(Err(e)) => Phase::Rejected(e),
            None => Phase::Rejected(TransactionValidityError::Invalid(InvalidTransaction::Custom(INVALID_SIGNATURE))),
        };
    }

    /// Pool validation against the signer's account.
    pub fn validate(&mut self, dispatch_info: &DispatchInfo, len: usize, account: &EvmAccount, config: &EvmConfig, ctx: &ChainContext)
        requires
            old(self).phase is Recovered,
            old(self).call.is_self_contained_spec(),
        ensures
            final(self).call == old(self).call,
            final(self).phase == match eth_validate(old(self).call.eth_transaction().unwrap(), *account, *config, *ctx, *dispatch_info, len as int) {
                Ok(v) => Phase::Validated(old(self).phase->Recovered_0, v),
                Err(e) => Phase::Rejected(e),
            },
    {
        let signer = match self.phase {
            Phase::Recovered(a) => a,
            _ => return,
        };
        self.phase = match self.call.validate_self_contained(&signer, dispatch_info, len, account, config, ctx) {
            Some(Ok(v)) => Phase::Validated(signer, v),
            Some(Err(e)) => Phase::Rejected(e),
            None => Phase::Rejected(TransactionValidityError::Invalid(InvalidTransaction::Call)),
        };
    }

    /// Pre-dispatch against the signer's current account and the block, after
    /// validation. On success the block counts the call.
    pub fn pre_dispatch(&mut self, dispatch_info: &DispatchInfo, len: usize, account: &EvmAccount, config: &EvmConfig, ctx: &mut ChainContext)
        requires
            old(self).phase is Validated,
            old(self).call.is_self_contained_spec(),
        ensures
            final(self).call == old(self).call,
            final(self).phase == match eth_pre_dispatch(old(self).call.eth_transaction().unwrap(), *account, *config, *old(ctx), *dispatch_info, len as int) {
                Ok(()) => Phase::PreDispatched(old(self).signer()),
                Err(e) => Phase::Rejected(e),
            },
            final(self).phase is PreDispatched ==> *final(ctx) == counted(*old(ctx), with_base(dispatch_info.weight), len as int),
            !(final(self).phase is PreDispatched) ==> *final(ctx) == *old(ctx),
    {
        let signer = match self.phase {
            Phase::Validated(a, _) => a,
            _ => return,
        };
        self.phase = match self.call.pre_dispatch_self_contained(&signer, dispatch_info, len, account, config, ctx) {
            Some(Ok(())) => Phase::PreDispatched(signer),
            Some(Err(e)) => Phase::Rejected(e),
            None => Phase::Rejected(TransactionValidityError::Invalid(InvalidTransaction::Call)),
        };
    }

    /// The signer recovered in an earlier phase.
    pub open spec fn signer(self) -> H160 {
        match self.phase {
            Phase::Recovered(a) => a,
            Phase::Validated(a, _) => a,
            Phase::PreDispatched(a) => a,
            _ => arbitrary(),
        }
    }

    /// Dispatch under the recovered signer's origin; only after pre-dispatch, with the
    /// account pre-dispatch was checked against (its nonce is then the transaction's,
    /// below the largest). The nonce moves on by one. The flow ends here.
    pub fn apply(self, account: &mut EvmAccount) -> (r: Dispatch)
        requires
            self.phase is PreDispatched,
            self.call.is_self_contained_spec(),
            old(account).nonce < u64::MAX,
        ensures
            r == (Dispatch { origin: Origin::EthereumTransaction(self.signer()), call: self.call }),
            *final(account) == eth_applied(*old(account)),
            final(account).nonce == old(account).nonce + 1,
    {
        let signer = match self.phase {
            Phase::PreDispatched(a) => a,
            _ => {
                assert(false);
                H160 { bytes: [0u8; 20] }
            },
        };
        match self.call.apply_self_contained(signer, account) {
            Some(d) => d,
            None => {
                assert(false);
                Dispatch {
                    origin: Origin::Unsigned,
                    call: RuntimeCall::Other { pallet_index: 0, call_index: 0, args: Vec::new() },
                }
            },
        }
    }
}

} // verus!
