use fintradex_runtime::envelope::{decode_bare, encode_bare, split_call, TransactionConverter};
use fintradex_runtime::call::{EthereumSignature, EthereumTransaction, RuntimeCall};
use fintradex_runtime::version::{native_version, Runtime};

#[test]
fn short_call_has_one_byte_length_prefix() {
    let bytes = encode_bare(&vec![0xAA, 0xBB, 0xCC]);
    assert_eq!(bytes, vec![16, 4, 0xAA, 0xBB, 0xCC]);
}

#[test]
fn longer_call_has_two_byte_length_prefix() {
    let call = vec![7u8; 100];
    let bytes = encode_bare(&call);
    assert_eq!(&bytes[..3], &[149, 1, 4]);
    assert_eq!(bytes.len(), 103);
    assert_eq!(decode_bare(&bytes), Some(call));
}

#[test]
fn four_byte_length_prefix_round_trips() {
    let call = vec![1u8; 20_000];
    let bytes = encode_bare(&call);
    // (20_001 << 2) | 2 = 80_006
    assert_eq!(&bytes[..5], &[0x86, 0x38, 0x01, 0x00, 4]);
    assert_eq!(decode_bare(&bytes), Some(call));
}

#[test]
fn empty_call_round_trips() {
    let bytes = encode_bare(&vec![]);
    assert_eq!(bytes, vec![4, 4]);
    assert_eq!(decode_bare(&bytes), Some(vec![]));
}

#[test]
fn decode_refuses_malformed_envelopes() {
    assert_eq!(decode_bare(&vec![]), None);
    // signed version byte
    assert_eq!(decode_bare(&vec![8, 0x84, 1]), None);
    // length prefix says more than is there
    assert_eq!(decode_bare(&vec![16, 4, 1]), None);
    // length prefix says less than is there
    assert_eq!(decode_bare(&vec![4, 4, 1]), None);
    // non-canonical two-byte prefix for a small length
    assert_eq!(decode_bare(&vec![0x09, 0x00, 4, 1]), None);
}

#[test]
fn converter_wraps_a_transact_call() {
    let converter = TransactionConverter::default();
    let r = converter.convert_transaction(&vec![0xDE, 0xAD]);
    assert_eq!(r.call, vec![47, 0, 0xDE, 0xAD]);
}

#[test]
fn runtime_version_is_this_runtime() {
    let v = Runtime::get();
    assert_eq!(v.spec_name, "fintradex-runtime");
    assert_eq!(v.impl_name, "fintradex-runtime");
    assert_eq!(v.spec_version, 1);
    assert_eq!(v.transaction_version, 1);
    assert_eq!(v.impl_version, 0);
    let n = native_version();
    assert_eq!(n.runtime_version, v);
    assert!(n.can_author_with.is_empty());
}

#[test]
fn converted_transaction_reaches_the_classifier() {
    let r = TransactionConverter::default().convert_transaction(&vec![0xDE, 0xAD]);
    let c = split_call(&r.call).unwrap();
    assert_eq!((c.pallet_index, c.call_index), (47, 0));
    assert_eq!(c.args, vec![0xDE, 0xAD]);
    assert!(c.is_self_contained());
    assert!(c.clone().into_runtime_call(None).is_none());
    let t = EthereumTransaction {
        nonce: 0,
        gas_price: 1,
        gas_limit: 21_000,
        value: 0,
        chain_id: 42,
        signature: EthereumSignature { v: 27, r: [1u8; 32], s: [2u8; 32] },
    };
    let call = c.into_runtime_call(Some(t)).unwrap();
    assert!(call.is_self_contained());
}

#[test]
fn other_calls_split_and_stay_classic() {
    assert!(split_call(&vec![]).is_none());
    assert!(split_call(&vec![6]).is_none());
    let c = split_call(&vec![6, 3, 9, 9]).unwrap();
    assert!(!c.is_self_contained());
    let call = c.into_runtime_call(None).unwrap();
    assert!(matches!(call, RuntimeCall::Other { pallet_index: 6, call_index: 3, ref args } if *args == vec![9, 9]));
    assert!(!call.is_self_contained());
    let wrong_index = split_call(&vec![47, 1]).unwrap();
    assert!(!wrong_index.is_self_contained());
}
