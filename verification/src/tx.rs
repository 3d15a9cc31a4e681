use vstd::prelude::*;

use crate::asset::Asset;
use crate::crypto::{PublicKey, Signature, SIGNATURE_BYTES};
use crate::error::NativeError;

verus! {

/// The kinds of GODcoin transactions.
#[derive(Clone, Copy, Debug, PartialEq, Eq, Structural)]
pub enum TxType {
    REWARD,
    BOND,
    TRANSFER,
}

impl TxType {
    /// The number that stands for the transaction type in `tx_type`.
    pub open spec fn spec_id(self) -> u8 {
        match self {
            TxType::REWARD => 0,
            TxType::BOND => 1,
            TxType::TRANSFER => 2,
        }
    }

    /// The transaction type that a number stands for, if any.
    pub open spec fn spec_from_id(id: u8) -> Option<TxType> {
        if id == 0 {
            Some(TxType::REWARD)
        } else if id == 1 {
            Some(TxType::BOND)
        } else if id == 2 {
            Some(TxType::TRANSFER)
        } else {
            None
        }
    }

    pub fn id(self) -> (id: u8)
        ensures
            id == self.spec_id(),
    {
        match self {
            TxType::REWARD => 0,
            TxType::BOND => 1,
            TxType::TRANSFER => 2,
        }
    }

    pub fn from_id(id: u8) -> (t: Option<TxType>)
        ensures
            t == Self::spec_from_id(id),
    {
        if id == 0 {
            Some(TxType::REWARD)
        } else if id == 1 {
            Some(TxType::BOND)
        } else if id == 2 {
            Some(TxType::TRANSFER)
        } else {
            None
        }
    }
}

/// A public key with a signature made under it.
#[derive(Debug)]
pub struct SigPair {
    pub pub_key: PublicKey,
    pub signature: Signature,
}

impl SigPair {
    /// Pairs a key with signature bytes; `InvalidSignature` unless there are exactly
    /// 64 of them.
    pub fn from_parts(pub_key: PublicKey, sig_bytes: &[u8]) -> (res: Result<SigPair, NativeError>)
        ensures
            res is Err <==> sig_bytes@.len() != SIGNATURE_BYTES,
            res matches Err(e) ==> e == NativeError::InvalidSignature,
            res matches Ok(p) ==> p.pub_key@ == pub_key@ && p.signature@ == sig_bytes@,
    {
        match Signature::from_bytes(sig_bytes) {
            Some(signature) => Ok(SigPair { pub_key, signature }),
            None => Err(NativeError::InvalidSignature),
        }
    }
}

/// A key and raw signature bytes, as read from a JavaScript `[key, buffer]` pair.
pub struct RawSigPair {
    pub pub_key: PublicKey,
    pub signature: Vec<u8>,
}

/// The fields shared by every transaction.
#[derive(Debug)]
pub struct Tx {
    pub tx_type: TxType,
    pub timestamp: u32,
    pub fee: Asset,
    pub signature_pairs: Vec<SigPair>,
}

/// Whether every raw pair's signature holds exactly 64 bytes.
pub open spec fn all_signatures_valid(raw: Seq<RawSigPair>) -> bool {
    forall|i: int| 0 <= i < raw.len() ==> (#[trigger] raw[i].signature@).len() == SIGNATURE_BYTES
}

impl Tx {
    /// The transaction header without signatures, as `Tx_encode` builds it:
    /// `InvalidTxType` unless `tx_type_id` names a transaction type.
    pub fn from_fields(tx_type_id: u8, timestamp: u32, fee: Asset) -> (res: Result<Tx, NativeError>)
        ensures
            res is Err <==> TxType::spec_from_id(tx_type_id) is None,
            res matches Err(e) ==> e == NativeError::InvalidTxType,
            res matches Ok(tx) ==> {
                &&& Some(tx.tx_type) == TxType::spec_from_id(tx_type_id)
                &&& tx.timestamp == timestamp
                &&& tx.fee == fee
                &&& tx.signature_pairs@.len() == 0
            },
    {
        match TxType::from_id(tx_type_id) {
            Some(tx_type) => Ok(Tx { tx_type, timestamp, fee, signature_pairs: Vec::new() }),
            None => Err(NativeError::InvalidTxType),
        }
    }

    /// The transaction header with its signatures, as `Tx_encode_with_sigs` builds
    /// it: the type is checked first (`InvalidTxType`), then every signature in
    /// order (`InvalidSignature`); the pairs keep their keys, bytes and order.
    pub fn from_fields_with_sigs(
        tx_type_id: u8,
        timestamp: u32,
        fee: Asset,
        sigs: Vec<RawSigPair>,
    ) -> (res: Result<Tx, NativeError>)
        ensures
            TxType::spec_from_id(tx_type_id) is None ==> res == Err::<Tx, NativeError>(NativeError::InvalidTxType),
            TxType::spec_from_id(tx_type_id) is Some && !all_signatures_valid(sigs@)
                ==> res == Err::<Tx, NativeError>(NativeError::InvalidSignature),
            res is Ok <==> TxType::spec_from_id(tx_type_id) is Some && all_signatures_valid(sigs@),
            TxType::spec_from_id(tx_type_id) is Some
                && (forall|i: int| 0 <= i < sigs@.len() ==> #[trigger] sigs@[i].signature@.len() == 64)
                ==> res is Ok,
            res is Err && TxType::spec_from_id(tx_type_id) is Some ==>
                exists|i: int| 0 <= i < sigs@.len() && #[trigger] sigs@[i].signature@.len() != 64,
            res matches Ok(tx) ==> {
                &&& Some(tx.tx_type) == TxType::spec_from_id(tx_type_id)
                &&& tx.timestamp == timestamp
                &&& tx.fee == fee
                &&& tx.signature_pairs@.len() == sigs@.len()
                &&& forall|i: int| 0 <= i < sigs@.len() ==> {
                    &&& (#[trigger] tx.signature_pairs@[i]).pub_key@ == sigs@[i].pub_key@
                    &&& tx.signature_pairs@[i].signature@ == sigs@[i].signature@
                }
            },
    {
        let tx_type = match TxType::from_id(tx_type_id) {
            Some(t) => t,
            None => return Err(NativeError::InvalidTxType),
        };
        let ghost raw = sigs@;
        let mut pairs: Vec<SigPair> = Vec::with_capacity(sigs.len());
        let mut rest = sigs;
        while rest.len() > 0
            invariant
                Some(tx_type) == TxType::spec_from_id(tx_type_id),
                raw == sigs@,
                pairs@.len() + rest@.len() == raw.len(),
                rest@ =~= raw.subrange(pairs@.len() as int, raw.len() as int),
                forall|j: int| 0 <= j < pairs@.len() ==> {
                    &&& (#[trigger] pairs@[j]).pub_key@ == raw[j].pub_key@
                    &&& pairs@[j].signature@ == raw[j].signature@
                },
                forall|j: int| 0 <= j < pairs@.len() ==> (#[trigger] raw[j].signature@).len() == SIGNATURE_BYTES,
            decreases rest@.len(),
        {
            let ghost k = pairs@.len() as int;
            let raw_pair = rest.remove(0);
            proof {
                assert(raw_pair == raw[k]);
            }
            match SigPair::from_parts(raw_pair.pub_key, raw_pair.signature.as_slice()) {
                Ok(p) => pairs.push(p),
                Err(e) => {
                    proof {
                        assert(raw[k].signature@.len() != SIGNATURE_BYTES);
                    }
                    return Err(e);
                },
            }
            proof {
                assert(rest@ =~= raw.subrange(pairs@.len() as int, raw.len() as int));
            }
        }
        Ok(Tx { tx_type, timestamp, fee, signature_pairs: pairs })
    }
}

/// A transaction that pays out block rewards.
#[derive(Debug)]
pub struct RewardTx {
    pub base: Tx,
    pub to: PublicKey,
    pub rewards: Vec<Asset>,
}

/// A transaction that bonds a minter to a staker.
#[derive(Debug)]
pub struct BondTx {
    pub base: Tx,
    pub minter: PublicKey,
    pub staker: PublicKey,
    pub stake_amt: Asset,
    pub bond_fee: Asset,
}

/// A transaction that moves an amount between two keys.
#[derive(Debug)]
pub struct TransferTx {
    pub base: Tx,
    pub from: PublicKey,
    pub to: PublicKey,
    pub amount: Asset,
    pub memo: Vec<u8>,
}

/// Any of the transaction kinds.
#[derive(Debug)]
pub enum TxVariant {
    RewardTx(RewardTx),
    BondTx(BondTx),
    TransferTx(TransferTx),
}

impl TxVariant {
    /// The header shared by every transaction kind.
    pub open spec fn spec_base(&self) -> &Tx {
        match self {
            TxVariant::RewardTx(t) => &t.base,
            TxVariant::BondTx(t) => &t.base,
            TxVariant::TransferTx(t) => &t.base,
        }
    }

    /// The header shared by every transaction kind.
    pub fn base(&self) -> (b: &Tx)
        ensures
            b == self.spec_base(),
    {
        match self {
            TxVariant::RewardTx(t) => &t.base,
            TxVariant::BondTx(t) => &t.base,
            TxVariant::TransferTx(t) => &t.base,
        }
    }
}

/// Transaction types are numbered REWARD 0, BOND 1, TRANSFER 2; exactly those
/// numbers name a type.
pub proof fn lemma_tx_type_numbering(n: u8)
    ensures
        TxType::REWARD.spec_id() == 0,
        TxType::BOND.spec_id() == 1,
        TxType::TRANSFER.spec_id() == 2,
        TxType::spec_from_id(n) is Some <==> n <= 2,
        TxType::spec_from_id(n) matches Some(t) ==> t.spec_id() == n,
{
}

/// Signature pairs are accepted on the lengths of their signatures alone, however
/// many pairs there are: all of them hold 64 bytes exactly when every signature
/// holds 64 bytes.
pub proof fn lemma_all_signatures_valid_law(raw: Seq<RawSigPair>)
    ensures
        all_signatures_valid(raw) <==> forall|i: int| 0 <= i < raw.len() ==> raw[i].signature@.len() == 64,
        raw.len() == 0 ==> all_signatures_valid(raw),
        SIGNATURE_BYTES == 64,
{
}

/// A transaction type read back from the number it is written as is the same type.
pub proof fn lemma_tx_type_id_roundtrip(t: TxType)
    ensures
        TxType::spec_from_id(t.spec_id()) == Some(t),
{
}

} // verus!
