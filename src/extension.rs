//! The ordered chain of checks that classically signed extrinsics pass through.
use crate::call::{AccountId32, Dispatch, DispatchInfo, Nonce, Origin, RuntimeCall};
use crate::fee::{extrinsic_base_weight, fee_of, Balance, WeightToFee, EXTRINSIC_BASE_REF_TIME};
use crate::validity::{
    NONCE_AT_MAXIMUM,
    InvalidTransaction, TransactionValidity, TransactionValidityError, UnknownTransaction,
    ValidTransaction,
};
use crate::weight::{sat_add_u64, Weight};
use vstd::arithmetic::div_mod::{lemma_div_pos_is_pos, lemma_fundamental_div_mod, lemma_mod_pos_bound};
use vstd::arithmetic::mul::{lemma_mul_is_commutative, lemma_mul_nonnegative};
use vstd::prelude::*;

verus! {

/// Number of recent block hashes kept, and so the oldest birth block a mortal
/// transaction may name.
pub const BLOCK_HASH_COUNT: u64 = 4096;

/// Fee per byte of an extrinsic's encoding: ten micro-units. A parameter of this
/// runtime's choosing.
pub const TRANSACTION_BYTE_FEE: Balance = 10_000_000;

/// The span of blocks in which a transaction is valid.
#[derive(Clone, Copy, Debug, PartialEq, Eq, Structural)]
pub enum Era {
    Immortal,
    /// Valid for `period` blocks from the last block `b <= now` with `b % period == phase`.
    Mortal { period: u64, phase: u64 },
}

/// The shared context of one block: what every check may read, and the totals
/// that pre-dispatch moves on.
#[derive(Clone, Copy, Debug)]
pub struct ChainContext {
    pub block_number: u32,
    pub genesis_hash: [u8; 32],
    pub spec_version: u32,
    pub transaction_version: u32,
    /// Whether the runtime knows the hash of its own metadata.
    pub metadata_hash_known: bool,
    /// Weight consumed so far in this block.
    pub block_weight: Weight,
    pub max_block_weight: Weight,
    pub max_extrinsic_weight: Weight,
    /// Encoded length of the extrinsics included so far in this block.
    pub block_length: u32,
    pub max_block_length: u32,
}

/// The state of a sender's account that the checks read and change.
#[derive(Clone, Copy, Debug, PartialEq, Eq, Structural)]
pub struct SenderAccount {
    pub nonce: Nonce,
    pub free: Balance,
}

/// A classically signed extrinsic: its sender, whether its signature verifies over
/// the payload, the values the signer bound it to, and the call.
#[derive(Clone, Debug)]
pub struct SignedExtrinsic {
    pub sender: AccountId32,
    pub signature_valid: bool,
    pub spec_version: u32,
    pub transaction_version: u32,
    pub genesis_hash: [u8; 32],
    pub era: Era,
    pub nonce: Nonce,
    pub tip: Balance,
    pub metadata_hash_enabled: bool,
    pub info: DispatchInfo,
    pub len: u32,
    pub call: RuntimeCall,
}

pub open spec fn inv(e: InvalidTransaction) -> TransactionValidityError {
    TransactionValidityError::Invalid(e)
}

/// First block of the era's current period, for `period > 0`.
pub open spec fn era_birth(period: u64, phase: u64, now: u64) -> int {
    let base = if now > phase { now } else { phase };
    (base - phase) / (period as int) * period + phase
}

/// Whether the era names a block whose hash is still known.
pub open spec fn era_alive(era: Era, now: u64) -> bool {
    match era {
        Era::Immortal => true,
        Era::Mortal { period, phase } => period > 0 && phase <= now && now - era_birth(period, phase, now)
            <= BLOCK_HASH_COUNT,
    }
}

/// Blocks left until the era ends.
pub open spec fn era_longevity(era: Era, now: u64) -> u64 {
    match era {
        Era::Immortal => u64::MAX,
        Era::Mortal { period, phase } => {
            let left = era_birth(period, phase, now) + period - now;
            if left > u64::MAX { u64::MAX } else if left < 0 { 0 } else { left as u64 }
        },
    }
}

/// A declared weight plus the base weight of an extrinsic.
pub open spec fn with_base(w: Weight) -> Weight {
    Weight { ref_time: sat_add_u64(EXTRINSIC_BASE_REF_TIME, w.ref_time), proof_size: w.proof_size }
}

/// Declared weight plus the base weight of an extrinsic.
pub open spec fn total_weight(xt: SignedExtrinsic) -> Weight {
    with_base(xt.info.weight)
}

pub open spec fn sat_add_u128(a: u128, b: int) -> u128 {
    if a + b > u128::MAX { u128::MAX } else { (a + b) as u128 }
}

/// Base fee, length fee, weight fee and tip, each added with saturation. The weight
/// fee is charged as it stands: this runtime applies no fee multiplier.
pub open spec fn compute_fee(xt: SignedExtrinsic) -> Balance {
    sat_add_u128(
        sat_add_u128(
            sat_add_u128(fee_of(EXTRINSIC_BASE_REF_TIME), xt.len * TRANSACTION_BYTE_FEE),
            fee_of(xt.info.weight.ref_time) as int,
        ),
        xt.tip as int,
    )
}

/// The nonce check: the largest nonce and stale nonces fail; at dispatch a nonce
/// ahead fails too.
pub open spec fn nonce_failure(acct: SenderAccount, xt: SignedExtrinsic, at_dispatch: bool) -> Option<TransactionValidityError> {
    if xt.nonce == u32::MAX {
        Some(inv(InvalidTransaction::Custom(NONCE_AT_MAXIMUM)))
    } else if xt.nonce < acct.nonce {
        Some(inv(InvalidTransaction::Stale))
    } else if at_dispatch && xt.nonce > acct.nonce {
        Some(inv(InvalidTransaction::Future))
    } else {
        None
    }
}

/// The weight and length check: alone against the per-extrinsic limits, and at
/// dispatch also against what the block has left.
pub open spec fn exceeds_limits(ctx: ChainContext, total: Weight, len: int, at_dispatch: bool) -> bool {
    !total.fits_in(ctx.max_extrinsic_weight) || len > ctx.max_block_length || (at_dispatch
        && (ctx.block_weight.ref_time + total.ref_time > ctx.max_block_weight.ref_time
            || ctx.block_weight.proof_size + total.proof_size > ctx.max_block_weight.proof_size
            || ctx.block_length + len > ctx.max_block_length))
}

pub open spec fn weight_failure(ctx: ChainContext, xt: SignedExtrinsic, at_dispatch: bool) -> bool {
    exceeds_limits(ctx, total_weight(xt), xt.len as int, at_dispatch)
}

/// The checks in their fixed order: signature, non-zero sender, spec version,
/// transaction version, genesis, era, nonce, weight, payment, metadata hash. The
/// first that fails gives the outcome.
pub open spec fn chain_failure(ctx: ChainContext, acct: SenderAccount, xt: SignedExtrinsic, at_dispatch: bool) -> Option<TransactionValidityError> {
    if !xt.signature_valid {
        Some(inv(InvalidTransaction::BadProof))
    } else if xt.sender.is_zero_spec() {
        Some(inv(InvalidTransaction::BadSigner))
    } else if xt.spec_version != ctx.spec_version || xt.transaction_version != ctx.transaction_version
        || xt.genesis_hash@ != ctx.genesis_hash@ {
        Some(inv(InvalidTransaction::BadProof))
    } else if !era_alive(xt.era, ctx.block_number as u64) {
        Some(inv(InvalidTransaction::AncientBirthBlock))
    } else if nonce_failure(acct, xt, at_dispatch) is Some {
        nonce_failure(acct, xt, at_dispatch)
    } else if weight_failure(ctx, xt, at_dispatch) {
        Some(inv(InvalidTransaction::ExhaustsResources))
    } else if acct.free < compute_fee(xt) {
        Some(inv(InvalidTransaction::Payment))
    } else if xt.metadata_hash_enabled && !ctx.metadata_hash_known {
        Some(TransactionValidityError::Unknown(UnknownTransaction::CannotLookup))
    } else {
        None
    }
}

/// What the pool learns of an extrinsic that passes validation.
pub open spec fn valid_spec(ctx: ChainContext, acct: SenderAccount, xt: SignedExtrinsic) -> ValidTransaction {
    ValidTransaction {
        priority: if xt.tip > u64::MAX { u64::MAX } else { xt.tip as u64 },
        required_nonce: if xt.nonce > acct.nonce { Some((xt.nonce - 1) as u64) } else { None },
        provided_nonce: xt.nonce as u64,
        longevity: era_longevity(xt.era, ctx.block_number as u64),
        propagate: true,
    }
}

pub open spec fn validate_spec(ctx: ChainContext, acct: SenderAccount, xt: SignedExtrinsic) -> TransactionValidity {
    match chain_failure(ctx, acct, xt, false) {
        Some(e) => Err(e),
        None => Ok(valid_spec(ctx, acct, xt)),
    }
}

/// The sender's account after pre-dispatch: the nonce moves on by one and the fee is paid.
pub open spec fn account_after(acct: SenderAccount, xt: SignedExtrinsic) -> SenderAccount {
    SenderAccount {
        nonce: (acct.nonce + 1) as u32,
        free: (acct.free - compute_fee(xt)) as u128,
    }
}

/// The block context after pre-dispatch: the extrinsic's weight and length are counted.
pub open spec fn context_after(ctx: ChainContext, xt: SignedExtrinsic) -> ChainContext {
    counted(ctx, total_weight(xt), xt.len as int)
}

/// The block context with a weight and a length counted.
pub open spec fn counted(ctx: ChainContext, total: Weight, len: int) -> ChainContext {
    ChainContext {
        block_weight: Weight {
            ref_time: (ctx.block_weight.ref_time + total.ref_time) as u64,
            proof_size: (ctx.block_weight.proof_size + total.proof_size) as u64,
        },
        block_length: (ctx.block_length + len) as u32,
        ..ctx
    }
}

/// Rounding down to a multiple of `p` stays between zero and `x`.
proof fn lemma_floor_multiple(x: int, p: int)
    requires
        x >= 0,
        p > 0,
    ensures
        0 <= (x / p) * p <= x,
        x < (x / p) * p + p,
{
    lemma_fundamental_div_mod(x, p);
    lemma_mod_pos_bound(x, p);
    lemma_mul_is_commutative(x / p, p);
    lemma_div_pos_is_pos(x, p);
    lemma_mul_nonnegative(x / p, p);
}

/// An extrinsic whose signature does not verify is refused by the first check, in
/// validation and at pre-dispatch, before any check that changes state.
pub proof fn lemma_bad_signature_rejected(ctx: ChainContext, acct: SenderAccount, xt: SignedExtrinsic)
    requires
        !xt.signature_valid,
    ensures
        chain_failure(ctx, acct, xt, true) == Some(inv(InvalidTransaction::BadProof)),
        validate_spec(ctx, acct, xt) == Err::<ValidTransaction, TransactionValidityError>(inv(InvalidTransaction::BadProof)),
{
}

fn same_hash(a: &[u8; 32], b: &[u8; 32]) -> (r: bool)
    ensures
        r == (a@ == b@),
{
    let mut i: usize = 0;
    while i < 32
        invariant
            i <= 32,
            a@.len() == 32,
            b@.len() == 32,
            forall|j: int| 0 <= j < i ==> a@[j] == b@[j],
        decreases 32 - i,
    {
        if a[i] != b[i] {
            return false;
        }
        i = i + 1;
    }
    assert(a@ =~= b@);
    true
}

/// Whether the era's birth block hash is still known at block `now`.
pub fn check_era(era: &Era, now: u64) -> (r: bool)
    ensures
        r == era_alive(*era, now),
{
    match era {
        Era::Immortal => true,
        Era::Mortal { period, phase } => {
            if *period == 0 || *phase > now {
                return false;
            }
            proof {
                lemma_floor_multiple((now - *phase) as int, *period as int);
            }
            let birth = (now - *phase) / *period * *period + *phase;
            assert(birth == era_birth(*period, *phase, now));
            now - birth <= BLOCK_HASH_COUNT
        },
    }
}

fn longevity(era: &Era, now: u64) -> (r: u64)
    requires
        era_alive(*era, now),
    ensures
        r == era_longevity(*era, now),
{
    match era {
        Era::Immortal => u64::MAX,
        Era::Mortal { period, phase } => {
            proof {
                lemma_floor_multiple((now - *phase) as int, *period as int);
            }
            let birth = (now - *phase) / *period * *period + *phase;
            assert(birth == era_birth(*period, *phase, now));
            let end = (birth as u128) + (*period as u128);
            let left = end - (now as u128);
            if left > u64::MAX as u128 { u64::MAX } else { left as u64 }
        },
    }
}

/// Fee charged for a signed extrinsic.
pub fn extrinsic_fee(xt: &SignedExtrinsic) -> (r: Balance)
    ensures
        r == compute_fee(*xt),
{
    let base_fee = WeightToFee::weight_to_fee(&extrinsic_base_weight());
    let len_fee = (xt.len as u128) * TRANSACTION_BYTE_FEE;
    let weight_fee = WeightToFee::weight_to_fee(&xt.info.weight);
    base_fee.saturating_add(len_fee).saturating_add(weight_fee).saturating_add(xt.tip)
}

/// A declared weight plus the base weight of an extrinsic.
pub fn add_base(w: &Weight) -> (r: Weight)
    ensures
        r == with_base(*w),
{
    Weight { ref_time: EXTRINSIC_BASE_REF_TIME.saturating_add(w.ref_time), proof_size: w.proof_size }
}

/// The weight check: whether an extrinsic of weight `total` (base included) and
/// encoded length `len` exceeds the limits.
pub fn exceeds(ctx: &ChainContext, total: &Weight, len: usize, at_dispatch: bool) -> (r: bool)
    ensures
        r == exceeds_limits(*ctx, *total, len as int, at_dispatch),
{
    if !total.all_lte(&ctx.max_extrinsic_weight) || len > ctx.max_block_length as usize {
        return true;
    }
    at_dispatch && ((ctx.block_weight.ref_time as u128) + (total.ref_time as u128)
        > ctx.max_block_weight.ref_time as u128 || (ctx.block_weight.proof_size as u128)
        + (total.proof_size as u128) > ctx.max_block_weight.proof_size as u128
        || (ctx.block_length as u64) + (len as u64) > ctx.max_block_length as u64)
}

/// Counts a weight and a length that fit in the block.
pub fn count_in_block(ctx: &mut ChainContext, total: &Weight, len: usize)
    requires
        !exceeds_limits(*old(ctx), *total, len as int, true),
    ensures
        *final(ctx) == counted(*old(ctx), *total, len as int),
{
    ctx.block_weight = Weight {
        ref_time: ctx.block_weight.ref_time + total.ref_time,
        proof_size: ctx.block_weight.proof_size + total.proof_size,
    };
    ctx.block_length = ctx.block_length + len as u32;
}

/// Runs the checks in order and stops at the first failure.
fn first_failure(ctx: &ChainContext, acct: &SenderAccount, xt: &SignedExtrinsic, at_dispatch: bool) -> (r: Option<TransactionValidityError>)
    ensures
        r == chain_failure(*ctx, *acct, *xt, at_dispatch),
{
    if !xt.signature_valid {
        return Some(TransactionValidityError::Invalid(InvalidTransaction::BadProof));
    }
    if xt.sender.is_zero() {
        return Some(TransactionValidityError::Invalid(InvalidTransaction::BadSigner));
    }
    if xt.spec_version != ctx.spec_version || xt.transaction_version != ctx.transaction_version
        || !same_hash(&xt.genesis_hash, &ctx.genesis_hash) {
        return Some(TransactionValidityError::Invalid(InvalidTransaction::BadProof));
    }
    if !check_era(&xt.era, ctx.block_number as u64) {
        return Some(TransactionValidityError::Invalid(InvalidTransaction::AncientBirthBlock));
    }
    if xt.nonce == u32::MAX {
        return Some(TransactionValidityError::Invalid(InvalidTransaction::Custom(NONCE_AT_MAXIMUM)));
    }
    if xt.nonce < acct.nonce {
        return Some(TransactionValidityError::Invalid(InvalidTransaction::Stale));
    }
    if at_dispatch && xt.nonce > acct.nonce {
        return Some(TransactionValidityError::Invalid(InvalidTransaction::Future));
    }
    if exceeds(ctx, &add_base(&xt.info.weight), xt.len as usize, at_dispatch) {
        return Some(TransactionValidityError::Invalid(InvalidTransaction::ExhaustsResources));
    }
    if acct.free < extrinsic_fee(xt) {
        return Some(TransactionValidityError::Invalid(InvalidTransaction::Payment));
    }
    if xt.metadata_hash_enabled && !ctx.metadata_hash_known {
        return Some(TransactionValidityError::Unknown(UnknownTransaction::CannotLookup));
    }
    None
}

/// Pool validation through the whole chain. Changes nothing.
pub fn validate_signed(ctx: &ChainContext, acct: &SenderAccount, xt: &SignedExtrinsic) -> (r: TransactionValidity)
    ensures
        r == validate_spec(*ctx, *acct, *xt),
{
    if let Some(e) = first_failure(ctx, acct, xt, false) {
        return Err(e);
    }
    let priority: u64 = if xt.tip > u64::MAX as u128 { u64::MAX } else { xt.tip as u64 };
    let required_nonce = if xt.nonce > acct.nonce { Some((xt.nonce - 1) as u64) } else { None };
    Ok(ValidTransaction {
        priority,
        required_nonce,
        provided_nonce: xt.nonce as u64,
        longevity: longevity(&xt.era, ctx.block_number as u64),
        propagate: true,
    })
}

/// Pre-dispatch through the whole chain. On success the sender's nonce moves on by
/// one, the fee is paid and the block counts the extrinsic; on failure nothing changes.
pub fn pre_dispatch_signed(ctx: &mut ChainContext, acct: &mut SenderAccount, xt: &SignedExtrinsic) -> (r: Result<(), TransactionValidityError>)
    ensures
        r == match chain_failure(*old(ctx), *old(acct), *xt, true) {
            Some(e) => Err(e),
            None => Ok::<(), TransactionValidityError>(()),
        },
        r is Err ==> *final(ctx) == *old(ctx) && *final(acct) == *old(acct),
        r is Ok ==> *final(ctx) == context_after(*old(ctx), *xt) && *final(acct) == account_after(*old(acct), *xt),
        r is Ok ==> final(acct).nonce == old(acct).nonce + 1,
        r is Ok ==> final(ctx).block_weight.fits_in(final(ctx).max_block_weight)
            && final(ctx).block_length <= final(ctx).max_block_length,
{
    if let Some(e) = first_failure(ctx, acct, xt, true) {
        return Err(e);
    }
    let fee = extrinsic_fee(xt);
    acct.nonce = acct.nonce + 1;
    acct.free = acct.free - fee;
    count_in_block(ctx, &add_base(&xt.info.weight), xt.len as usize);
    Ok(())
}

/// Pre-dispatch, then dispatch under the origin of the account that signed.
pub fn apply_signed(ctx: &mut ChainContext, acct: &mut SenderAccount, xt: SignedExtrinsic) -> (r: Result<Dispatch, TransactionValidityError>)
    ensures
        chain_failure(*old(ctx), *old(acct), xt, true) is Some ==> r == Err::<Dispatch, TransactionValidityError>(
            chain_failure(*old(ctx), *old(acct), xt, true).unwrap(),
        ) && *final(ctx) == *old(ctx) && *final(acct) == *old(acct),
        chain_failure(*old(ctx), *old(acct), xt, true) is None ==> r == Ok::<Dispatch, TransactionValidityError>(
            Dispatch { origin: Origin::Signed(xt.sender), call: xt.call },
        ) && *final(ctx) == context_after(*old(ctx), xt) && *final(acct) == account_after(*old(acct), xt),
        r is Ok ==> final(acct).nonce == old(acct).nonce + 1,
{
    match pre_dispatch_signed(ctx, acct, &xt) {
        Err(e) => Err(e),
        Ok(()) => Ok(Dispatch { origin: Origin::Signed(xt.sender), call: xt.call }),
    }
}

/// `a - b`, stopping at zero.
pub open spec fn sat_sub_u64(a: u64, b: int) -> u64 {
    if a - b < 0 { 0 } else { (a - b) as u64 }
}

/// The block's weight once a call has run: reference time the call declared but did
/// not use is handed back, and the proof size moves from the declared size to the
/// size measured while the call ran.
pub open spec fn corrected_weight(used: Weight, declared: Weight, actual_ref_time: Option<u64>, measured_proof_size: u64) -> Weight {
    Weight {
        ref_time: match actual_ref_time {
            Some(a) => if a < declared.ref_time { sat_sub_u64(used.ref_time, declared.ref_time - a) } else { used.ref_time },
            None => used.ref_time,
        },
        proof_size: if measured_proof_size < declared.proof_size {
            sat_sub_u64(used.proof_size, declared.proof_size - measured_proof_size)
        } else {
            sat_add_u64(used.proof_size, (measured_proof_size - declared.proof_size) as u64)
        },
    }
}

/// Post-dispatch correction of the block's weight, with the reference time the call
/// reported (if it reported any) and the proof size measured around it.
pub fn post_dispatch(ctx: &mut ChainContext, declared: &Weight, actual_ref_time: Option<u64>, measured_proof_size: u64)
    ensures
        *final(ctx) == (ChainContext {
            block_weight: corrected_weight(old(ctx).block_weight, *declared, actual_ref_time, measured_proof_size),
            ..*old(ctx)
        }),
{
    let used = ctx.block_weight;
    let ref_time = match actual_ref_time {
        Some(a) => if a < declared.ref_time {
            used.ref_time.saturating_sub(declared.ref_time - a)
        } else {
            used.ref_time
        },
        None => used.ref_time,
    };
    let proof_size = if measured_proof_size < declared.proof_size {
        used.proof_size.saturating_sub(declared.proof_size - measured_proof_size)
    } else {
        used.proof_size.saturating_add(measured_proof_size - declared.proof_size)
    };
    ctx.block_weight = Weight { ref_time, proof_size };
}

} // verus!
