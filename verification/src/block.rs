use vstd::prelude::*;

use crate::crypto::{double_sha256, sha256_of, spec_double_sha256, Digest, DIGEST_BYTES};
use crate::error::NativeError;
use crate::tx::{SigPair, TxVariant};

verus! {

/// A block: its header fields and the transactions it carries.
#[derive(Debug)]
pub struct Block {
    pub previous_hash: Digest,
    pub height: u64,
    pub timestamp: u32,
    pub tx_merkle_root: Digest,
    pub transactions: Vec<TxVariant>,
}

/// A block with the minter's signature over it.
#[derive(Debug)]
pub struct SignedBlock {
    pub base: Block,
    pub sig_pair: SigPair,
}

impl Block {
    /// A block without transactions from its header fields. The previous hash is
    /// checked first (`InvalidPreviousHash` unless it is 32 bytes), then the merkle
    /// root (`InvalidMerkleRoot` unless it is 32 bytes).
    pub fn header(
        previous_hash: &[u8],
        height: u64,
        timestamp: u32,
        tx_merkle_root: &[u8],
    ) -> (res: Result<Block, NativeError>)
        ensures
            previous_hash@.len() != DIGEST_BYTES
                ==> res == Err::<Block, NativeError>(NativeError::InvalidPreviousHash),
            previous_hash@.len() == DIGEST_BYTES && tx_merkle_root@.len() != DIGEST_BYTES
                ==> res == Err::<Block, NativeError>(NativeError::InvalidMerkleRoot),
            res is Ok <==> previous_hash@.len() == DIGEST_BYTES && tx_merkle_root@.len() == DIGEST_BYTES,
            res matches Ok(b) ==> {
                &&& b.previous_hash@ == previous_hash@
                &&& b.height == height
                &&& b.timestamp == timestamp
                &&& b.tx_merkle_root@ == tx_merkle_root@
                &&& b.transactions@.len() == 0
            },
    {
        let previous_hash = match Digest::from_slice(previous_hash) {
            Some(d) => d,
            None => return Err(NativeError::InvalidPreviousHash),
        };
        let tx_merkle_root = match Digest::from_slice(tx_merkle_root) {
            Some(d) => d,
            None => return Err(NativeError::InvalidMerkleRoot),
        };
        Ok(Block { previous_hash, height, timestamp, tx_merkle_root, transactions: Vec::new() })
    }
}

/// The concatenation of byte strings, in order.
pub open spec fn concat_all(parts: Seq<Seq<u8>>) -> Seq<u8>
    decreases parts.len(),
{
    if parts.len() == 0 {
        Seq::empty()
    } else {
        concat_all(parts.drop_last()) + parts.last()
    }
}

/// The views of a list of byte vectors.
pub open spec fn views_of(parts: Seq<Vec<u8>>) -> Seq<Seq<u8>> {
    parts.map_values(|v: Vec<u8>| v@)
}

/// The merkle root of a block's transactions, given each transaction's encoding
/// with its signatures: the double SHA-256 of all encodings laid end to end.
pub open spec fn spec_tx_merkle_root(encoded_txs: Seq<Vec<u8>>) -> Seq<u8> {
    spec_double_sha256(concat_all(views_of(encoded_txs)))
}

/// Computes the merkle root from the transactions' encodings, in block order.
pub fn calc_tx_merkle_root(encoded_txs: &Vec<Vec<u8>>) -> (root: Digest)
    ensures
        root@ == spec_tx_merkle_root(encoded_txs@),
        root@ == sha256_of(sha256_of(encoded_txs@.map_values(|v: Vec<u8>| v@).flatten())),
{
    let mut buf: Vec<u8> = Vec::new();
    let mut i: usize = 0;
    while i < encoded_txs.len()
        invariant
            i <= encoded_txs@.len(),
            buf@ == concat_all(views_of(encoded_txs@.subrange(0, i as int))),
        decreases encoded_txs@.len() - i,
    {
        let part = &encoded_txs[i];
        let ghost before = buf@;
        let mut j: usize = 0;
        while j < part.len()
            invariant
                j <= part@.len(),
                buf@ == before + part@.subrange(0, j as int),
            decreases part@.len() - j,
        {
            buf.push(part[j]);
            j = j + 1;
            proof {
                assert(buf@ =~= before + part@.subrange(0, j as int));
            }
        }
        proof {
            let next = encoded_txs@.subrange(0, i + 1);
            assert(next.drop_last() =~= encoded_txs@.subrange(0, i as int));
            assert(views_of(next).drop_last() =~= views_of(encoded_txs@.subrange(0, i as int)));
            assert(views_of(next).last() == part@);
            assert(part@.subrange(0, part@.len() as int) =~= part@);
        }
        i = i + 1;
    }
    proof {
        assert(encoded_txs@.subrange(0, encoded_txs@.len() as int) =~= encoded_txs@);
    }
    proof {
        lemma_merkle_root_of_encodings(encoded_txs@);
    }
    double_sha256(buf.as_slice())
}

proof fn lemma_concat_all_is_flatten_alt(parts: Seq<Seq<u8>>)
    ensures
        concat_all(parts) == parts.flatten_alt(),
    decreases parts.len(),
{
    if parts.len() > 0 {
        lemma_concat_all_is_flatten_alt(parts.drop_last());
    }
}

/// The merkle root of any list of transaction encodings is SHA-256 applied twice to
/// all the encodings laid end to end, in their order, none left out.
pub proof fn lemma_merkle_root_of_encodings(encoded_txs: Seq<Vec<u8>>)
    ensures
        spec_tx_merkle_root(encoded_txs)
            == sha256_of(sha256_of(encoded_txs.map_values(|v: Vec<u8>| v@).flatten())),
{
    let parts = encoded_txs.map_values(|v: Vec<u8>| v@);
    assert(views_of(encoded_txs) == parts);
    lemma_concat_all_is_flatten_alt(parts);
    parts.lemma_flatten_and_flatten_alt_are_equivalent();
}

/// Adding a transaction to the end of a block extends the hashed bytes by exactly
/// its encoding: the root of `txs` followed by `t` is the double SHA-256 of the
/// encodings of `txs` laid end to end and then `t`'s encoding. A lone transaction's
/// root is the double SHA-256 of its own encoding; no transactions give the double
/// SHA-256 of no bytes.
pub proof fn lemma_merkle_root_push(encoded_txs: Seq<Vec<u8>>, t: Vec<u8>)
    ensures
        spec_tx_merkle_root(encoded_txs.push(t))
            == sha256_of(sha256_of(encoded_txs.map_values(|v: Vec<u8>| v@).flatten() + t@)),
        spec_tx_merkle_root(Seq::<Vec<u8>>::empty().push(t)) == sha256_of(sha256_of(t@)),
        spec_tx_merkle_root(Seq::<Vec<u8>>::empty()) == sha256_of(sha256_of(Seq::<u8>::empty())),
{
    let parts = encoded_txs.map_values(|v: Vec<u8>| v@);
    let pushed = encoded_txs.push(t);
    lemma_merkle_root_of_encodings(pushed);
    lemma_merkle_root_of_encodings(encoded_txs);
    assert(pushed.map_values(|v: Vec<u8>| v@) =~= parts + seq![t@]);
    vstd::seq_lib::lemma_flatten_concat(parts, seq![t@]);
    seq![t@].lemma_flatten_one_element();
    let single = Seq::<Vec<u8>>::empty().push(t);
    lemma_merkle_root_of_encodings(single);
    assert(single.map_values(|v: Vec<u8>| v@) =~= seq![t@]);
    let none = Seq::<Vec<u8>>::empty();
    lemma_merkle_root_of_encodings(none);
    assert(none.map_values(|v: Vec<u8>| v@) =~= Seq::<Seq<u8>>::empty());
}

} // verus!
