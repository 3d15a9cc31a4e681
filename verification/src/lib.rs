//! Verified core of the GODcoin native bindings: the checks and conversions that
//! stand between JavaScript values and GODcoin's data types, together with the
//! hashing and signing that the bindings perform through libsodium.
#![allow(non_camel_case_types)]

pub mod asset;
pub mod block;
pub mod crypto;
pub mod error;
pub mod net;
pub mod tx;

pub use asset::{Asset, AssetSymbol, MAX_PRECISION};
pub use error::NativeError;
pub use net::{BufRpcCodec, MsgType};

