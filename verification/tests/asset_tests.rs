use godcoin_native::asset::{Asset, AssetSymbol, MAX_PRECISION};
use godcoin_native::error::NativeError;

#[test]
fn asset_from_parts_accepts_gold_and_silver() {
    let gold = Asset::from_parts(12345, 4, 0).unwrap();
    assert_eq!(gold.amount, 12345);
    assert_eq!(gold.decimals, 4);
    assert_eq!(gold.symbol, AssetSymbol::GOLD);
    let silver = Asset::from_parts(-7, 0, 1).unwrap();
    assert_eq!(silver.symbol, AssetSymbol::SILVER);
    assert_eq!(silver.amount, -7);
}

#[test]
fn asset_from_parts_accepts_max_precision() {
    let a = Asset::from_parts(1, MAX_PRECISION, 0).unwrap();
    assert_eq!(a.decimals, 8);
}

#[test]
fn asset_from_parts_rejects_high_precision() {
    assert_eq!(Asset::from_parts(1, 9, 0), Err(NativeError::PrecisionTooHigh));
    assert_eq!(Asset::from_parts(1, 255, 0), Err(NativeError::PrecisionTooHigh));
}

#[test]
fn asset_precision_checked_before_symbol() {
    assert_eq!(Asset::from_parts(1, 9, 7), Err(NativeError::PrecisionTooHigh));
}

#[test]
fn asset_from_parts_rejects_unknown_symbol() {
    assert_eq!(Asset::from_parts(1, 2, 2), Err(NativeError::InvalidSymbol));
    assert_eq!(Asset::from_parts(1, 2, 255), Err(NativeError::InvalidSymbol));
}

#[test]
fn asset_parts_roundtrip() {
    for &(amount, decimals, sym) in &[(0i64, 0u8, 0u8), (i64::MAX, 8, 1), (i64::MIN, 3, 0), (42, 8, 1)] {
        let a = Asset::from_parts(amount, decimals, sym).unwrap();
        let (x, y, z) = a.to_parts();
        assert_eq!((x, y, z), (amount, decimals, sym));
        assert_eq!(Asset::from_parts(x, y, z), Ok(a));
    }
}

#[test]
fn symbol_ids() {
    assert_eq!(AssetSymbol::GOLD.id(), 0);
    assert_eq!(AssetSymbol::SILVER.id(), 1);
    assert_eq!(AssetSymbol::from_id(0), Some(AssetSymbol::GOLD));
    assert_eq!(AssetSymbol::from_id(1), Some(AssetSymbol::SILVER));
    assert_eq!(AssetSymbol::from_id(2), None);
}

#[test]
fn error_messages() {
    assert_eq!(NativeError::PrecisionTooHigh.message(), "precision too high");
    assert_eq!(NativeError::InvalidSymbol.message(), "invalid symbol identifier");
    assert_eq!(NativeError::InvalidBufferLen.message(), "invalid buffer len");
    assert_eq!(NativeError::InvalidSeedLen.message(), "invalid seed len");
    assert_eq!(NativeError::InvalidSecretLen.message(), "invalid secret len");
    assert_eq!(NativeError::InvalidSignature.message(), "invalid signature");
    assert_eq!(NativeError::InvalidTxType.message(), "invalid tx_type");
    assert_eq!(NativeError::InvalidPreviousHash.message(), "invalid previous_hash digest");
    assert_eq!(NativeError::InvalidMerkleRoot.message(), "invalid tx_merkle_root digest");
    assert_eq!(NativeError::InvalidEventType.message(), "invalid event type");
    assert_eq!(NativeError::InvalidPeerType.message(), "invalid peer_type");
    assert_eq!(NativeError::InvalidMsgType.message(), "invalid msg_type");
    assert_eq!(NativeError::InitFailed.message(), "failed to initialize library");
    assert_eq!(NativeError::AssetSymbolMismatch.message(), "asset symbol mismatch");
}
