use vstd::prelude::*;

verus! {

/// Every way in which a value handed over from JavaScript can be refused.
#[derive(Clone, Copy, Debug, PartialEq, Eq, Structural)]
pub enum NativeError {
    /// An asset with more decimal places than `MAX_PRECISION`.
    PrecisionTooHigh,
    /// An asset symbol number that names no symbol.
    InvalidSymbol,
    /// A public key buffer of the wrong length.
    InvalidBufferLen,
    /// A private key seed buffer of the wrong length.
    InvalidSeedLen,
    /// A private key secret buffer of the wrong length.
    InvalidSecretLen,
    /// Signature bytes that libsodium does not accept as a signature.
    InvalidSignature,
    /// A transaction type number that names no transaction type.
    InvalidTxType,
    /// A previous-block hash that is not a SHA-256 digest.
    InvalidPreviousHash,
    /// A transaction merkle root that is not a SHA-256 digest.
    InvalidMerkleRoot,
    /// An RPC event type other than `tx` or `block`.
    InvalidEventType,
    /// A peer type number that names no peer type.
    InvalidPeerType,
    /// An RPC message type number that the encoder does not accept.
    InvalidMsgType,
    /// libsodium could not be initialised.
    InitFailed,
    /// Two assets of different symbols compared with each other.
    AssetSymbolMismatch,
}

impl NativeError {
    /// The text thrown to JavaScript for this error.
    pub open spec fn spec_message(self) -> Seq<char> {
        match self {
            NativeError::PrecisionTooHigh => "precision too high"@,
            NativeError::InvalidSymbol => "invalid symbol identifier"@,
            NativeError::InvalidBufferLen => "invalid buffer len"@,
            NativeError::InvalidSeedLen => "invalid seed len"@,
            NativeError::InvalidSecretLen => "invalid secret len"@,
            NativeError::InvalidSignature => "invalid signature"@,
            NativeError::InvalidTxType => "invalid tx_type"@,
            NativeError::InvalidPreviousHash => "invalid previous_hash digest"@,
            NativeError::InvalidMerkleRoot => "invalid tx_merkle_root digest"@,
            NativeError::InvalidEventType => "invalid event type"@,
            NativeError::InvalidPeerType => "invalid peer_type"@,
            NativeError::InvalidMsgType => "invalid msg_type"@,
            NativeError::InitFailed => "failed to initialize library"@,
            NativeError::AssetSymbolMismatch => "asset symbol mismatch"@,
        }
    }

    /// The text thrown to JavaScript for this error.
    pub fn message(&self) -> (msg: &'static str)
        ensures
            msg@ == self.spec_message(),
    {
        match self {
            NativeError::PrecisionTooHigh => "precision too high",
            NativeError::InvalidSymbol => "invalid symbol identifier",
            NativeError::InvalidBufferLen => "invalid buffer len",
            NativeError::InvalidSeedLen => "invalid seed len",
            NativeError::InvalidSecretLen => "invalid secret len",
            NativeError::InvalidSignature => "invalid signature",
            NativeError::InvalidTxType => "invalid tx_type",
            NativeError::InvalidPreviousHash => "invalid previous_hash digest",
            NativeError::InvalidMerkleRoot => "invalid tx_merkle_root digest",
            NativeError::InvalidEventType => "invalid event type",
            NativeError::InvalidPeerType => "invalid peer_type",
            NativeError::InvalidMsgType => "invalid msg_type",
            NativeError::InitFailed => "failed to initialize library",
            NativeError::AssetSymbolMismatch => "asset symbol mismatch",
        }
    }
}

} // verus!
