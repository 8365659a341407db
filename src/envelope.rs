//! Wire format of bare extrinsics, and the adapter that wraps an Ethereum
//! transaction into one.
use crate::call::{EthereumCall, EthereumTransaction, RuntimeCall, ETHEREUM_PALLET_INDEX};
use vstd::prelude::*;

verus! {

/// Version byte of an extrinsic without a signed section.
pub const BARE_EXTRINSIC_VERSION: u8 = 4;

/// Index of `transact` among the Ethereum module's calls.
pub const TRANSACT_CALL_INDEX: u8 = 0;

/// Little-endian bytes of the low `n` bytes of `x`.
pub open spec fn le_bytes(x: int, n: nat) -> Seq<u8>
    decreases n,
{
    if n == 0 {
        Seq::empty()
    } else {
        seq![(x % 256) as u8] + le_bytes(x / 256, (n - 1) as nat)
    }
}

/// SCALE compact encoding of a 32-bit integer: the two low bits of the first byte
/// give the mode, the value follows shifted left by two, or after the byte 3.
pub open spec fn compact_bytes(n: u32) -> Seq<u8> {
    if n < 64 {
        seq![(n * 4) as u8]
    } else if n < 16384 {
        le_bytes(n * 4 + 1, 2)
    } else if n < 1073741824 {
        le_bytes(n * 4 + 2, 4)
    } else {
        seq![3u8] + le_bytes(n as int, 4)
    }
}

pub open spec fn starts_with(bytes: Seq<u8>, prefix: Seq<u8>) -> bool {
    prefix.len() <= bytes.len() && bytes.subrange(0, prefix.len() as int) == prefix
}

/// Relies on parity-scale-codec's `Encode` for `Compact<u32>`.
#[verifier::external_body]
fn compact_encode(n: u32) -> (r: Vec<u8>)
    ensures
        r@ == compact_bytes(n),
{
    parity_scale_codec::Encode::encode(&parity_scale_codec::Compact(n))
}

/// Relies on parity-scale-codec's `Decode` for `Compact<u32>`: it reads the canonical
/// encoding of a value from the front of the input and refuses any other; the
/// result holds the value and the number of bytes left after it.
#[verifier::external_body]
fn compact_decode(bytes: &[u8]) -> (r: Option<(u32, usize)>)
    ensures
        forall|w: u32| #[trigger] starts_with(bytes@, compact_bytes(w)) ==> r == Some(
            (w, (bytes@.len() - compact_bytes(w).len()) as usize),
        ),
        r matches Some((v, rest)) ==> starts_with(bytes@, compact_bytes(v)) && rest == bytes@.len()
            - compact_bytes(v).len(),
{
    let mut input: &[u8] = bytes;
    match <parity_scale_codec::Compact<u32> as parity_scale_codec::Decode>::decode(&mut input) {
        Ok(c) => Some((c.0, input.len())),
        Err(_) => None,
    }
}

/// Wire form of a bare extrinsic: the length of what follows, the version byte,
/// then the encoded call.
pub open spec fn bare_encoding(call: Seq<u8>) -> Seq<u8> {
    compact_bytes((call.len() + 1) as u32) + seq![BARE_EXTRINSIC_VERSION] + call
}

/// Whether a call's encoding is short enough for a bare extrinsic's length prefix.
pub open spec fn encodable(call: Seq<u8>) -> bool {
    call.len() + 1 <= u32::MAX
}

/// Encodes a bare extrinsic around an encoded call.
pub fn encode_bare(call: &Vec<u8>) -> (r: Vec<u8>)
    requires
        encodable(call@),
    ensures
        r@ == bare_encoding(call@),
{
    let mut out = compact_encode((call.len() + 1) as u32);
    out.push(BARE_EXTRINSIC_VERSION);
    let mut i: usize = 0;
    let ghost start = out@;
    while i < call.len()
        invariant
            i <= call.len(),
            out@ == start + call@.subrange(0, i as int),
        decreases call.len() - i,
    {
        out.push(call[i]);
        i = i + 1;
        assert(out@ =~= start + call@.subrange(0, i as int));
    }
    assert(call@.subrange(0, call@.len() as int) =~= call@);
    out
}

/// Decodes a bare extrinsic and returns its encoded call. Succeeds exactly on the
/// encodings that `encode_bare` produces.
pub fn decode_bare(bytes: &Vec<u8>) -> (r: Option<Vec<u8>>)
    ensures
        r matches Some(c) ==> encodable(c@) && bytes@ == bare_encoding(c@),
        forall|c: Seq<u8>| encodable(c) && bytes@ == #[trigger] bare_encoding(c) ==> (r is Some && r.unwrap()@ == c),
{
    let ghost b = bytes@;
    assert forall|c: Seq<u8>| encodable(c) && b == #[trigger] bare_encoding(c) implies starts_with(
        b,
        compact_bytes((c.len() + 1) as u32),
    ) by {
        let p = compact_bytes((c.len() + 1) as u32);
        assert(b.subrange(0, p.len() as int) =~= p);
    }
    let (len, rest) = match compact_decode(bytes.as_slice()) {
        Some(x) => x,
        None => return None,
    };
    let start = bytes.len() - rest;
    if rest != len as usize || rest == 0 || bytes[start] != BARE_EXTRINSIC_VERSION {
        return None;
    }
    let mut call: Vec<u8> = Vec::new();
    let mut i: usize = start + 1;
    while i < bytes.len()
        invariant
            start + 1 <= i <= bytes.len(),
            call@ == bytes@.subrange(start + 1, i as int),
        decreases bytes.len() - i,
    {
        call.push(bytes[i]);
        i = i + 1;
        assert(call@ =~= bytes@.subrange(start + 1, i as int));
    }
    assert(bytes@ =~= compact_bytes(len) + seq![BARE_EXTRINSIC_VERSION] + call@);
    assert forall|c: Seq<u8>| encodable(c) && b == #[trigger] bare_encoding(c) implies call@ == c by {
        let p = compact_bytes((c.len() + 1) as u32);
        assert(call@ =~= b.subrange(p.len() as int + 1, b.len() as int));
        assert(c =~= b.subrange(p.len() as int + 1, b.len() as int));
    }
    Some(call)
}

/// A bare extrinsic, holding its encoded call.
#[derive(Clone, Debug)]
pub struct BareExtrinsic {
    pub call: Vec<u8>,
}

/// Encoded Ethereum `transact` call around an encoded transaction.
pub open spec fn transact_call(transaction: Seq<u8>) -> Seq<u8> {
    seq![ETHEREUM_PALLET_INDEX, TRANSACT_CALL_INDEX] + transaction
}

/// Adapts Ethereum transactions that arrive from outside into bare extrinsics.
#[derive(Clone, Copy, Debug)]
pub struct TransactionConverter;

impl TransactionConverter {
    pub fn default() -> (r: TransactionConverter)
        ensures
            r == TransactionConverter,
    {
        TransactionConverter
    }

    /// Wraps an encoded transaction into a `transact` call in a bare extrinsic, then
    /// reads the extrinsic back from its wire form, so the result is exactly what
    /// block import would decode.
    pub fn convert_transaction(&self, transaction: &Vec<u8>) -> (r: BareExtrinsic)
        requires
            transaction@.len() + 3 <= u32::MAX,
        ensures
            r.call@ == transact_call(transaction@),
    {
        let mut call: Vec<u8> = vec![ETHEREUM_PALLET_INDEX, TRANSACT_CALL_INDEX];
        let mut i: usize = 0;
        while i < transaction.len()
            invariant
                i <= transaction.len(),
                call@ == transact_call(transaction@.subrange(0, i as int)),
            decreases transaction.len() - i,
        {
            call.push(transaction[i]);
            i = i + 1;
            assert(call@ =~= transact_call(transaction@.subrange(0, i as int)));
        }
        assert(transaction@.subrange(0, transaction@.len() as int) =~= transaction@);
        let encoded = encode_bare(&call);
        match decode_bare(&encoded) {
            Some(decoded) => BareExtrinsic { call: decoded },
            None => {
                assert(false);
                BareExtrinsic { call }
            },
        }
    }
}

/// An encoded call: the index of its module, the index of the call within the
/// module, and the call's encoded arguments.
#[derive(Clone, Debug)]
pub struct EncodedCall {
    pub pallet_index: u8,
    pub call_index: u8,
    pub args: Vec<u8>,
}

/// Splits an encoded call into its two indices and its arguments; `None` when the
/// bytes are too short to hold the indices.
pub fn split_call(call: &Vec<u8>) -> (r: Option<EncodedCall>)
    ensures
        r is None <==> call@.len() < 2,
        r matches Some(c) ==> c.pallet_index == call@[0] && c.call_index == call@[1] && c.args@ == call@.subrange(
            2,
            call@.len() as int,
        ),
{
    if call.len() < 2 {
        return None;
    }
    let mut args: Vec<u8> = Vec::new();
    let mut i: usize = 2;
    while i < call.len()
        invariant
            2 <= i <= call.len(),
            args@ == call@.subrange(2, i as int),
        decreases call.len() - i,
    {
        args.push(call[i]);
        i = i + 1;
        assert(args@ =~= call@.subrange(2, i as int));
    }
    Some(EncodedCall { pallet_index: call[0], call_index: call[1], args })
}

impl EncodedCall {
    pub open spec fn is_transact(&self) -> bool {
        self.pallet_index == ETHEREUM_PALLET_INDEX && self.call_index == TRANSACT_CALL_INDEX
    }

    /// Whether the encoded call is the Ethereum module's `transact`, the one call that
    /// carries its own authorization.
    pub fn is_self_contained(&self) -> (r: bool)
        ensures
            r == self.is_transact(),
    {
        self.pallet_index == ETHEREUM_PALLET_INDEX && self.call_index == TRANSACT_CALL_INDEX
    }

    /// The call as the classifier takes it. The arguments of `transact` are an
    /// Ethereum transaction in its own encoding; `transaction` is that transaction
    /// decoded, and without it a `transact` call gives `None`. Any other call is
    /// carried by its indices and arguments.
    pub fn into_runtime_call(self, transaction: Option<EthereumTransaction>) -> (r: Option<RuntimeCall>)
        ensures
            self.is_transact() ==> r == match transaction {
                Some(t) => Some(RuntimeCall::Ethereum(EthereumCall::Transact { transaction: t })),
                None => None::<RuntimeCall>,
            },
            !self.is_transact() ==> r == Some(
                RuntimeCall::Other { pallet_index: self.pallet_index, call_index: self.call_index, args: self.args },
            ),
            r matches Some(c) ==> (c.is_self_contained_spec() <==> self.is_transact()),
    {
        if self.is_self_contained() {
            match transaction {
                Some(t) => Some(RuntimeCall::Ethereum(EthereumCall::Transact { transaction: t })),
                None => None,
            }
        } else {
            Some(RuntimeCall::Other { pallet_index: self.pallet_index, call_index: self.call_index, args: self.args })
        }
    }
}

} // verus!
