use godcoin_native::asset::Asset;
use godcoin_native::crypto::{KeyPair, PublicKey};
use godcoin_native::error::NativeError;
use godcoin_native::tx::{RawSigPair, SigPair, Tx, TxType, TxVariant, TransferTx};

fn fee() -> Asset {
    Asset::from_parts(100, 2, 0).unwrap()
}

fn key(b: u8) -> PublicKey {
    PublicKey::from_bytes(&[b; 32]).unwrap()
}

#[test]
fn tx_type_ids() {
    assert_eq!(TxType::from_id(0), Some(TxType::REWARD));
    assert_eq!(TxType::from_id(1), Some(TxType::BOND));
    assert_eq!(TxType::from_id(2), Some(TxType::TRANSFER));
    assert_eq!(TxType::from_id(3), None);
    for t in [TxType::REWARD, TxType::BOND, TxType::TRANSFER] {
        assert_eq!(TxType::from_id(t.id()), Some(t));
    }
}

#[test]
fn tx_from_fields() {
    let tx = Tx::from_fields(2, 1_500_000_000, fee()).unwrap();
    assert_eq!(tx.tx_type, TxType::TRANSFER);
    assert_eq!(tx.timestamp, 1_500_000_000);
    assert_eq!(tx.fee, fee());
    assert!(tx.signature_pairs.is_empty());
    assert_eq!(Tx::from_fields(9, 0, fee()).unwrap_err(), NativeError::InvalidTxType);
}

#[test]
fn tx_with_sigs_keeps_pairs_in_order() {
    let kp = KeyPair::from_seed(&[3u8; 32]).unwrap();
    let s1 = kp.private.sign(b"a");
    let s2 = kp.private.sign(b"b");
    let sigs = vec![
        RawSigPair { pub_key: key(1), signature: s1.as_bytes().to_vec() },
        RawSigPair { pub_key: key(2), signature: s2.as_bytes().to_vec() },
    ];
    let tx = Tx::from_fields_with_sigs(0, 5, fee(), sigs).unwrap();
    assert_eq!(tx.tx_type, TxType::REWARD);
    assert_eq!(tx.timestamp, 5);
    assert_eq!(tx.signature_pairs.len(), 2);
    assert_eq!(tx.signature_pairs[0].pub_key.as_bytes(), &[1u8; 32][..]);
    assert_eq!(tx.signature_pairs[0].signature.as_bytes(), s1.as_bytes());
    assert_eq!(tx.signature_pairs[1].pub_key.as_bytes(), &[2u8; 32][..]);
    assert_eq!(tx.signature_pairs[1].signature.as_bytes(), s2.as_bytes());
}

#[test]
fn tx_with_sigs_rejects_bad_signature() {
    let sigs = vec![
        RawSigPair { pub_key: key(1), signature: vec![0u8; 64] },
        RawSigPair { pub_key: key(2), signature: vec![0u8; 10] },
    ];
    assert_eq!(Tx::from_fields_with_sigs(1, 0, fee(), sigs).unwrap_err(), NativeError::InvalidSignature);
}

#[test]
fn tx_with_sigs_accepts_any_64_bytes() {
    let mut b = vec![0u8; 64];
    b[63] = 0xff;
    let sigs = vec![RawSigPair { pub_key: key(1), signature: b.clone() }];
    let tx = Tx::from_fields_with_sigs(2, 0, fee(), sigs).unwrap();
    assert_eq!(tx.signature_pairs[0].signature.as_bytes(), &b[..]);
}

#[test]
fn tx_type_checked_before_signatures() {
    let sigs = vec![RawSigPair { pub_key: key(1), signature: vec![0u8; 10] }];
    assert_eq!(Tx::from_fields_with_sigs(7, 0, fee(), sigs).unwrap_err(), NativeError::InvalidTxType);
}

#[test]
fn tx_with_no_sigs() {
    let tx = Tx::from_fields_with_sigs(1, 3, fee(), vec![]).unwrap();
    assert_eq!(tx.tx_type, TxType::BOND);
    assert!(tx.signature_pairs.is_empty());
}

#[test]
fn sig_pair_from_parts() {
    let p = SigPair::from_parts(key(4), &[0u8; 64]).unwrap();
    assert_eq!(p.pub_key.as_bytes(), &[4u8; 32][..]);
    assert_eq!(p.signature.as_bytes(), &[0u8; 64][..]);
    let mut b = [0u8; 64];
    b[63] = 0xff;
    let q = SigPair::from_parts(key(4), &b).unwrap();
    assert_eq!(q.signature.as_bytes(), &b[..]);
    assert_eq!(SigPair::from_parts(key(4), &[0u8; 63]).unwrap_err(), NativeError::InvalidSignature);
}

#[test]
fn tx_variant_base() {
    let base = Tx::from_fields(2, 77, fee()).unwrap();
    let v = TxVariant::TransferTx(TransferTx { base, from: key(1), to: key(2), amount: fee(), memo: vec![1, 2] });
    assert_eq!(v.base().timestamp, 77);
    assert_eq!(v.base().tx_type, TxType::TRANSFER);
}
