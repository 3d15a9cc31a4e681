use vstd::prelude::*;

use crate::error::NativeError;

verus! {

/// Largest number of decimal places an asset handed over from JavaScript may carry.
pub const MAX_PRECISION: u8 = 8;

/// The two tokens of the GODcoin network.
#[derive(Clone, Copy, Debug, PartialEq, Eq, Structural)]
pub enum AssetSymbol {
    GOLD,
    SILVER,
}

impl AssetSymbol {
    /// The number that stands for the symbol on the JavaScript side.
    pub open spec fn spec_id(self) -> u8 {
        match self {
            AssetSymbol::GOLD => 0,
            AssetSymbol::SILVER => 1,
        }
    }

    /// The symbol that a JavaScript number stands for, if any.
    pub open spec fn spec_from_id(id: u8) -> Option<AssetSymbol> {
        if id == 0 {
            Some(AssetSymbol::GOLD)
        } else if id == 1 {
            Some(AssetSymbol::SILVER)
        } else {
            None
        }
    }

    pub fn id(self) -> (id: u8)
        ensures
            id == self.spec_id(),
    {
        match self {
            AssetSymbol::GOLD => 0,
            AssetSymbol::SILVER => 1,
        }
    }

    pub fn from_id(id: u8) -> (sym: Option<AssetSymbol>)
        ensures
            sym == Self::spec_from_id(id),
    {
        if id == 0 {
            Some(AssetSymbol::GOLD)
        } else if id == 1 {
            Some(AssetSymbol::SILVER)
        } else {
            None
        }
    }
}

/// An amount of one token, as a fixed-point number: `amount` scaled down by
/// `decimals` decimal places.
#[derive(Clone, Copy, Debug, PartialEq, Eq, Structural)]
pub struct Asset {
    pub amount: i64,
    pub decimals: u8,
    pub symbol: AssetSymbol,
}

impl Asset {
    /// An asset that JavaScript can hold: its precision is within `MAX_PRECISION`.
    pub open spec fn wf(self) -> bool {
        self.decimals <= MAX_PRECISION
    }

    /// What constructing an asset from its three JavaScript numbers yields.
    pub open spec fn spec_from_parts(amount: i64, decimals: u8, symbol_id: u8) -> Result<Asset, NativeError> {
        if decimals > MAX_PRECISION {
            Err(NativeError::PrecisionTooHigh)
        } else {
            match AssetSymbol::spec_from_id(symbol_id) {
                Some(symbol) => Ok(Asset { amount, decimals, symbol }),
                None => Err(NativeError::InvalidSymbol),
            }
        }
    }

    /// Builds an asset from an amount, a number of decimal places and a symbol
    /// number; the precision is checked before the symbol.
    pub fn from_parts(amount: i64, decimals: u8, symbol_id: u8) -> (res: Result<Asset, NativeError>)
        ensures
            res == Self::spec_from_parts(amount, decimals, symbol_id),
            res matches Ok(a) ==> a.wf(),
    {
        if decimals > MAX_PRECISION {
            return Err(NativeError::PrecisionTooHigh);
        }
        match AssetSymbol::from_id(symbol_id) {
            Some(symbol) => Ok(Asset { amount, decimals, symbol }),
            None => Err(NativeError::InvalidSymbol),
        }
    }

    /// The three numbers under which the asset is handed to JavaScript.
    pub fn to_parts(&self) -> (parts: (i64, u8, u8))
        ensures
            parts == (self.amount, self.decimals, self.symbol.spec_id()),
    {
        (self.amount, self.decimals, self.symbol.id())
    }
}

/// A symbol number read back from the number a symbol is written as gives that symbol.
pub proof fn lemma_symbol_id_roundtrip(symbol: AssetSymbol)
    ensures
        AssetSymbol::spec_from_id(symbol.spec_id()) == Some(symbol),
{
}

/// The numbers that name a symbol are exactly those that symbols are written as.
pub proof fn lemma_symbol_from_id_inverse(id: u8)
    ensures
        AssetSymbol::spec_from_id(id) matches Some(s) ==> s.spec_id() == id,
        AssetSymbol::spec_from_id(id) is None ==> id > 1,
{
}

/// An asset is made from its three numbers exactly when it has at most eight decimal
/// places and its symbol number is 0 (GOLD) or 1 (SILVER); it then holds the amount
/// and decimal places given. More than eight decimal places are refused with
/// `PrecisionTooHigh` whatever the symbol; otherwise an unknown symbol number is
/// refused with `InvalidSymbol`.
pub proof fn lemma_asset_from_parts_law(amount: i64, decimals: u8, symbol_id: u8)
    ensures
        decimals > 8 <==> Asset::spec_from_parts(amount, decimals, symbol_id)
            == Err::<Asset, NativeError>(NativeError::PrecisionTooHigh),
        decimals <= 8 && symbol_id == 0 ==> Asset::spec_from_parts(amount, decimals, symbol_id)
            == Ok::<Asset, NativeError>(Asset { amount, decimals, symbol: AssetSymbol::GOLD }),
        decimals <= 8 && symbol_id == 1 ==> Asset::spec_from_parts(amount, decimals, symbol_id)
            == Ok::<Asset, NativeError>(Asset { amount, decimals, symbol: AssetSymbol::SILVER }),
        decimals <= 8 && symbol_id > 1 ==> Asset::spec_from_parts(amount, decimals, symbol_id)
            == Err::<Asset, NativeError>(NativeError::InvalidSymbol),
        AssetSymbol::GOLD.spec_id() == 0,
        AssetSymbol::SILVER.spec_id() == 1,
        MAX_PRECISION == 8,
{
}

/// An asset handed to JavaScript as three numbers and read back from them is the
/// same asset, whenever its precision is one that JavaScript may hand over.
pub proof fn lemma_asset_parts_roundtrip(a: Asset)
    requires
        a.wf(),
    ensures
        Asset::spec_from_parts(a.amount, a.decimals, a.symbol.spec_id()) == Ok::<Asset, NativeError>(a),
{
}

} // verus!
