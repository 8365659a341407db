//! Identities, origins and the union of dispatchable calls.
use vstd::prelude::*;

verus! {

/// Index of an account's transaction.
pub type Nonce = u32;

/// Native account identifier: a 32-byte public key.
#[derive(Clone, Copy, Debug)]
pub struct AccountId32 {
    pub bytes: [u8; 32],
}

/// An Ethereum address, recovered from an embedded signature.
#[derive(Clone, Copy, Debug)]
pub struct H160 {
    pub bytes: [u8; 20],
}

impl AccountId32 {
    pub open spec fn is_zero_spec(self) -> bool {
        forall|i: int| 0 <= i < 32 ==> self.bytes@[i] == 0u8
    }

    /// Whether every byte of the identifier is zero.
    pub fn is_zero(&self) -> (r: bool)
        ensures
            r == self.is_zero_spec(),
    {
        let mut i: usize = 0;
        while i < 32
            invariant
                i <= 32,
                forall|j: int| 0 <= j < i ==> self.bytes@[j] == 0u8,
            decreases 32 - i,
        {
            if self.bytes[i] != 0 {
                return false;
            }
            i = i + 1;
        }
        true
    }
}

/// The identity a call is dispatched under.
#[derive(Clone, Copy, Debug)]
pub enum Origin {
    /// No identity: inherents and unsigned transactions.
    Unsigned,
    /// An account that attached its signature to the extrinsic.
    Signed(AccountId32),
    /// An address recovered from the signature embedded in an Ethereum transaction.
    EthereumTransaction(H160),
}

/// Signature embedded in an Ethereum transaction.
#[derive(Clone, Copy, Debug)]
pub struct EthereumSignature {
    pub v: u64,
    pub r: [u8; 32],
    pub s: [u8; 32],
}

/// An Ethereum transaction, as far as admission reads it.
#[derive(Clone, Copy, Debug)]
pub struct EthereumTransaction {
    pub nonce: u64,
    pub gas_price: u128,
    pub gas_limit: u64,
    pub value: u128,
    pub chain_id: u64,
    pub signature: EthereumSignature,
}

#[derive(Clone, Copy, Debug)]
pub enum EthereumCall {
    Transact { transaction: EthereumTransaction },
}

#[derive(Clone, Copy, Debug)]
pub enum BalancesCall {
    TransferAllowDeath { dest: AccountId32, value: u128 },
    TransferKeepAlive { dest: AccountId32, value: u128 },
}

#[derive(Clone, Debug)]
pub enum SystemCall {
    Remark { remark: Vec<u8> },
}

/// Every dispatchable action of the runtime. Calls of modules whose arguments
/// admission never reads are carried as their module and call index and their
/// encoded arguments.
#[derive(Clone, Debug)]
pub enum RuntimeCall {
    System(SystemCall),
    Balances(BalancesCall),
    Ethereum(EthereumCall),
    Other { pallet_index: u8, call_index: u8, args: Vec<u8> },
}

/// Index of the Ethereum module in the runtime.
pub const ETHEREUM_PALLET_INDEX: u8 = 47;

/// A call handed to its module together with the origin it runs under.
#[derive(Clone, Debug)]
pub struct Dispatch {
    pub origin: Origin,
    pub call: RuntimeCall,
}

} // verus!

verus! {

/// Which share of the block a call may use.
#[derive(Clone, Copy, Debug, PartialEq, Eq, Structural)]
pub enum DispatchClass {
    Normal,
    Operational,
    Mandatory,
}

/// Declared cost of a call, known before it runs. The class is carried for the
/// modules; admission holds every call to the one block limit and the one
/// per-extrinsic limit of the block context, with no separate limits per class.
#[derive(Clone, Copy, Debug)]
pub struct DispatchInfo {
    pub weight: crate::weight::Weight,
    pub class: DispatchClass,
}

} // verus!
