//! Outcomes of transaction validation.
use vstd::prelude::*;

verus! {

/// Reasons for which a transaction can never become valid against the current state.
#[derive(Clone, Copy, Debug, PartialEq, Eq, Structural)]
pub enum InvalidTransaction {
    /// The call cannot be made.
    Call,
    /// The sender cannot pay the fee.
    Payment,
    /// The nonce lies ahead of the account's next nonce.
    Future,
    /// The nonce was already used.
    Stale,
    /// The signature does not match the signed payload.
    BadProof,
    /// The block the transaction was made against is too old or unknown.
    AncientBirthBlock,
    /// The transaction would exceed a block limit.
    ExhaustsResources,
    /// The sender is not a valid signer.
    BadSigner,
    /// A reason defined by a module.
    Custom(u8),
}

/// Reasons for which validity cannot be decided yet.
#[derive(Clone, Copy, Debug, PartialEq, Eq, Structural)]
pub enum UnknownTransaction {
    /// Some data needed to check the transaction is not available.
    CannotLookup,
    /// No module validates this unsigned transaction.
    NoUnsignedValidator,
    /// A reason defined by a module.
    Custom(u8),
}

#[derive(Clone, Copy, Debug, PartialEq, Eq, Structural)]
pub enum TransactionValidityError {
    Invalid(InvalidTransaction),
    Unknown(UnknownTransaction),
}

/// What the pool learns of an acceptable transaction. Tags are nonces of the
/// transaction's sender: it provides `provided_nonce` and waits for `required_nonce`.
#[derive(Clone, Copy, Debug, PartialEq, Eq, Structural)]
pub struct ValidTransaction {
    pub priority: u64,
    pub required_nonce: Option<u64>,
    pub provided_nonce: u64,
    /// Number of blocks for which the outcome stays trustworthy.
    pub longevity: u64,
    pub propagate: bool,
}

/// Invalidity code: the nonce is the largest one, after which the account could take
/// no further transaction.
pub const NONCE_AT_MAXIMUM: u8 = 5;

pub type TransactionValidity = Result<ValidTransaction, TransactionValidityError>;

pub open spec fn invalid(e: InvalidTransaction) -> TransactionValidityError {
    TransactionValidityError::Invalid(e)
}

} // verus!
