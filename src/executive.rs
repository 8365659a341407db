//! Routing of each extrinsic to its admission path, and filling a block up to
//! its weight limit.
use crate::call::{Dispatch, Origin, RuntimeCall, H160};
use crate::extension::{
    account_after, apply_signed, chain_failure, context_after, counted, with_base, ChainContext, SenderAccount,
    SignedExtrinsic,
};
use crate::self_contained::{custom, eth_applied, eth_pre_dispatch, EvmAccount, EvmConfig, INVALID_SIGNATURE};
use crate::call::DispatchInfo;
use crate::validity::{InvalidTransaction, TransactionValidityError, UnknownTransaction};
use crate::weight::Weight;
use vstd::prelude::*;

verus! {

/// An extrinsic as it stands in a block.
#[derive(Clone, Debug)]
pub enum Extrinsic {
    /// Carries an externally attached signature.
    Signed(SignedExtrinsic),
    /// Carries no signature: a self-contained call, an inherent or an unsigned call.
    Bare { call: RuntimeCall, info: DispatchInfo, len: u32 },
}

/// The state one extrinsic is applied against.
pub struct ApplyState {
    pub context: ChainContext,
    /// The account of the signed extrinsic's sender.
    pub sender: SenderAccount,
    /// The account of the self-contained call's recovered signer.
    pub evm_account: EvmAccount,
    pub evm_config: EvmConfig,
}

/// Applying an extrinsic: the classic chain for signed extrinsics, the self-contained
/// protocol for self-contained calls. A bare call that is not self-contained needs an
/// attached signature and is refused.
/// `recovered` is the signer recovered from a self-contained call's embedded signature.
pub open spec fn apply_outcome(s: ApplyState, xt: Extrinsic, recovered: Option<H160>) -> Result<Dispatch, TransactionValidityError> {
    match xt {
        Extrinsic::Signed(sx) => match chain_failure(s.context, s.sender, sx, true) {
            Some(e) => Err(e),
            None => Ok(Dispatch { origin: Origin::Signed(sx.sender), call: sx.call }),
        },
        Extrinsic::Bare { call, info, len } => if call.is_self_contained_spec() {
            match recovered {
                None => Err(custom(INVALID_SIGNATURE)),
                Some(signer) => match call.eth_transaction() {
                    Some(t) => match eth_pre_dispatch(t, s.evm_account, s.evm_config, s.context, info, len as int) {
                        Err(e) => Err(e),
                        Ok(()) => Ok(Dispatch { origin: Origin::EthereumTransaction(signer), call }),
                    },
                    None => Err(TransactionValidityError::Invalid(InvalidTransaction::BadProof)),
                },
            }
        } else {
            Err(TransactionValidityError::Unknown(UnknownTransaction::NoUnsignedValidator))
        },
    }
}

/// The state after a successful application.
pub open spec fn state_after(s: ApplyState, xt: Extrinsic) -> ApplyState {
    match xt {
        Extrinsic::Signed(sx) => ApplyState {
            context: context_after(s.context, sx),
            sender: account_after(s.sender, sx),
            ..s
        },
        Extrinsic::Bare { info, len, .. } => ApplyState {
            evm_account: eth_applied(s.evm_account),
            context: counted(s.context, with_base(info.weight), len as int),
            ..s
        },
    }
}

/// Admits one extrinsic and hands back the call with the origin it runs under.
/// On rejection the state is unchanged. In block execution a self-contained call
/// goes from recovery straight to pre-dispatch: pool validation ran before the
/// block was built, and pre-dispatch repeats its checks against the current state.
pub fn apply_extrinsic(state: &mut ApplyState, xt: Extrinsic, recovered: Option<H160>) -> (r: Result<Dispatch, TransactionValidityError>)
    ensures
        r == apply_outcome(*old(state), xt, recovered),
        r is Err ==> *final(state) == *old(state),
        r is Ok ==> *final(state) == state_after(*old(state), xt),
{
    match xt {
        Extrinsic::Signed(sx) => apply_signed(&mut state.context, &mut state.sender, sx),
        Extrinsic::Bare { call, info, len } => {
            if !call.is_self_contained() {
                return Err(TransactionValidityError::Unknown(UnknownTransaction::NoUnsignedValidator));
            }
            let signer = match call.check_self_contained(recovered) {
                Some(Ok(a)) => a,
                Some(Err(e)) => return Err(e),
                None => return Err(TransactionValidityError::Invalid(InvalidTransaction::BadProof)),
            };
            match call.pre_dispatch_self_contained(&signer, &info, len as usize, &state.evm_account, &state.evm_config, &mut state.context) {
                Some(Err(e)) => return Err(e),
                Some(Ok(())) => {},
                None => return Err(TransactionValidityError::Invalid(InvalidTransaction::BadProof)),
            }
            match call.apply_self_contained(signer, &mut state.evm_account) {
                Some(d) => Ok(d),
                None => Err(TransactionValidityError::Invalid(InvalidTransaction::BadProof)),
            }
        },
    }
}

/// A call that is not self-contained is admitted only with an attached signature,
/// through the extension chain, and then runs under the signer's own origin.
pub proof fn lemma_classic_path_only(s: ApplyState, xt: Extrinsic, recovered: Option<H160>)
    ensures
        xt matches Extrinsic::Bare { call, .. } && !call.is_self_contained_spec() ==> apply_outcome(s, xt, recovered) is Err,
        xt matches Extrinsic::Signed(sx) ==> (apply_outcome(s, xt, recovered) is Ok <==> chain_failure(s.context, s.sender, sx, true) is None),
        xt matches Extrinsic::Signed(sx) ==> (apply_outcome(s, xt, recovered) is Ok ==> apply_outcome(s, xt, recovered).unwrap().origin == Origin::Signed(sx.sender)),
{
}

/// Reference time of the first `k` weights.
pub open spec fn sum_ref_time(ws: Seq<Weight>, k: int) -> int
    decreases k,
{
    if k <= 0 { 0 } else { sum_ref_time(ws, k - 1) + ws[k - 1].ref_time }
}

/// Proof size of the first `k` weights.
pub open spec fn sum_proof_size(ws: Seq<Weight>, k: int) -> int
    decreases k,
{
    if k <= 0 { 0 } else { sum_proof_size(ws, k - 1) + ws[k - 1].proof_size }
}

/// Whether the block, having used `used`, still fits the first `k` weights.
pub open spec fn prefix_fits(used: Weight, ws: Seq<Weight>, k: int, limit: Weight) -> bool {
    used.ref_time + sum_ref_time(ws, k) <= limit.ref_time
        && used.proof_size + sum_proof_size(ws, k) <= limit.proof_size
}

/// How many of the queued extrinsics, with weights `weights` and in queue order,
/// go into the block: all while the block's total stays within `limit`, and none
/// from the first that would exceed it on. The rest wait for the next block.
pub fn fill_block(used: &Weight, weights: &Vec<Weight>, limit: &Weight) -> (r: usize)
    ensures
        r <= weights.len(),
        forall|k: int| 0 <= k <= r ==> prefix_fits(*used, weights@, k, *limit)
            || (k == 0 && !used.fits_in(*limit)),
        r < weights.len() ==> !prefix_fits(*used, weights@, r + 1, *limit),
{
    if !used.all_lte(limit) {
        if weights.len() > 0 {
            assert(!prefix_fits(*used, weights@, 1, *limit)) by {
                assert(sum_ref_time(weights@, 1) == sum_ref_time(weights@, 0) + weights@[0].ref_time);
                assert(sum_proof_size(weights@, 1) == sum_proof_size(weights@, 0) + weights@[0].proof_size);
            }
        }
        return 0;
    }
    let mut i: usize = 0;
    let mut ref_time: u128 = used.ref_time as u128;
    let mut proof_size: u128 = used.proof_size as u128;
    while i < weights.len()
        invariant
            i <= weights.len(),
            ref_time == used.ref_time + sum_ref_time(weights@, i as int),
            proof_size == used.proof_size + sum_proof_size(weights@, i as int),
            ref_time <= limit.ref_time,
            proof_size <= limit.proof_size,
            forall|k: int| 0 <= k <= i ==> prefix_fits(*used, weights@, k, *limit),
        decreases weights.len() - i,
    {
        let next_ref = ref_time + weights[i].ref_time as u128;
        let next_proof = proof_size + weights[i].proof_size as u128;
        assert(sum_ref_time(weights@, i + 1) == sum_ref_time(weights@, i as int) + weights@[i as int].ref_time);
        assert(sum_proof_size(weights@, i + 1) == sum_proof_size(weights@, i as int) + weights@[i as int].proof_size);
        if next_ref > limit.ref_time as u128 || next_proof > limit.proof_size as u128 {
            return i;
        }
        ref_time = next_ref;
        proof_size = next_proof;
        i = i + 1;
    }
    i
}

} // verus!
