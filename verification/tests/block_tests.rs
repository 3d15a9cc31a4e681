use godcoin_native::block::{calc_tx_merkle_root, Block};
use godcoin_native::crypto::double_sha256;
use godcoin_native::error::NativeError;

#[test]
fn block_header_accepts_digests() {
    let b = Block::header(&[1u8; 32], 12, 99, &[2u8; 32]).unwrap();
    assert_eq!(b.previous_hash.as_bytes(), &[1u8; 32][..]);
    assert_eq!(b.height, 12);
    assert_eq!(b.timestamp, 99);
    assert_eq!(b.tx_merkle_root.as_bytes(), &[2u8; 32][..]);
    assert!(b.transactions.is_empty());
}

#[test]
fn block_header_rejects_previous_hash() {
    assert_eq!(Block::header(&[1u8; 31], 0, 0, &[2u8; 32]).unwrap_err(), NativeError::InvalidPreviousHash);
    assert_eq!(Block::header(&[1u8; 31], 0, 0, &[2u8; 3]).unwrap_err(), NativeError::InvalidPreviousHash);
}

#[test]
fn block_header_rejects_merkle_root() {
    assert_eq!(Block::header(&[1u8; 32], 0, 0, &[2u8; 33]).unwrap_err(), NativeError::InvalidMerkleRoot);
}

#[test]
fn merkle_root_of_no_transactions() {
    let root = calc_tx_merkle_root(&vec![]);
    assert_eq!(root.as_bytes(), double_sha256(&[]).as_bytes());
}

#[test]
fn merkle_root_hashes_concatenation() {
    let txs = vec![vec![1u8, 2, 3], vec![], vec![4u8, 5]];
    let root = calc_tx_merkle_root(&txs);
    assert_eq!(root.as_bytes(), double_sha256(&[1, 2, 3, 4, 5]).as_bytes());
    let swapped = calc_tx_merkle_root(&vec![vec![4u8, 5], vec![1u8, 2, 3]]);
    assert_ne!(swapped.as_bytes(), root.as_bytes());
}
