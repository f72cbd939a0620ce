//! What the Bitcoin and Stratum libraries compute on raw bytes.
use vstd::prelude::*;

use bitcoin::hashes::sha256d;
use bitcoin::util::psbt::serialize::Deserialize;
use bitcoin::{BlockHash, Transaction};
use roles_logic_sv2::mining_sv2::Target;
use roles_logic_sv2::utils::{get_target, hash_lists_tuple};

use crate::text;

verus! {

/// Whether `bitcoin::Transaction` has these bytes as its serialization.
pub uninterp spec fn tx_decodes(bytes: Seq<u8>) -> bool;

/// What `roles_logic_sv2::utils::hash_lists_tuple` makes of serialized
/// transactions and a nonce: their short hashes, and the hash of their ids.
pub uninterp spec fn tx_hash_lists(transactions: Seq<Seq<u8>>, nonce: u64) -> (
    Seq<Seq<u8>>,
    Seq<u8>,
);

/// `bitcoin::Transaction::deserialize`: whether the bytes are a transaction and
/// nothing but a transaction.
#[verifier::external_body]
pub(crate) fn transaction_decodes(bytes: &Vec<u8>) -> (r: bool)
    ensures
        r == tx_decodes(bytes@),
{
    Transaction::deserialize(bytes).is_ok()
}

/// `roles_logic_sv2::utils::hash_lists_tuple`, its transactions decoded from
/// bytes: one short hash of six bytes for every transaction, and a hash of 32
/// bytes over the ids of all of them. Both are functions of the transactions and
/// the nonce.
#[verifier::external_body]
pub(crate) fn hash_lists(transactions: &Vec<Vec<u8>>, nonce: u64) -> (r: (Vec<Vec<u8>>, Vec<u8>))
    requires
        forall|i: int|
            0 <= i < transactions@.len() ==> tx_decodes((#[trigger] transactions@[i])@),
    ensures
        text::bytes_of(r.0@) == tx_hash_lists(text::bytes_of(transactions@), nonce).0,
        r.1@ == tx_hash_lists(text::bytes_of(transactions@), nonce).1,
        r.0@.len() == transactions@.len(),
        forall|i: int| 0 <= i < r.0@.len() ==> (#[trigger] r.0@[i])@.len() == 6,
        r.1@.len() == 32,
{
    let decoded = transactions.iter().map(|t| Transaction::deserialize(t).unwrap()).collect();
    let (list, hash) = hash_lists_tuple(decoded, nonce);
    (list.into_inner().iter().map(|h| h.to_vec()).collect(), hash.to_vec())
}

/// The number that bytes denote, least significant byte first.
pub open spec fn le_value(bytes: Seq<u8>) -> nat
    decreases bytes.len(),
{
    if bytes.len() == 0 {
        0
    } else {
        bytes[0] as nat + 256 * le_value(bytes.skip(1))
    }
}

/// The hash that `roles_logic_sv2::utils::get_target` computes for a block header
/// whose merkle root belongs to the coinbase transaction `prefix`, `extranonce`,
/// `suffix`.
pub uninterp spec fn header_hash(
    nonce: u32,
    version: u32,
    ntime: u32,
    extranonce: Seq<u8>,
    coinbase_prefix: Seq<u8>,
    coinbase_suffix: Seq<u8>,
    prev_hash: Seq<u8>,
    merkle_path: Seq<Seq<u8>>,
    nbits: u32,
) -> Seq<u8>;

/// `roles_logic_sv2::utils::get_target`: the hash of a block header, most
/// significant byte first, a function of its arguments. It panics where the
/// coinbase parts do not join to a transaction.
#[verifier::external_body]
pub(crate) fn block_header_hash(
    nonce: u32,
    version: u32,
    ntime: u32,
    extranonce: &Vec<u8>,
    coinbase_prefix: &Vec<u8>,
    coinbase_suffix: &Vec<u8>,
    prev_hash: [u8; 32],
    merkle_path: Vec<Vec<u8>>,
    nbits: u32,
) -> (r: [u8; 32])
    requires
        tx_decodes(coinbase_prefix@ + extranonce@ + coinbase_suffix@),
    ensures
        r@ == header_hash(
            nonce,
            version,
            ntime,
            extranonce@,
            coinbase_prefix@,
            coinbase_suffix@,
            prev_hash@,
            text::bytes_of(merkle_path@),
            nbits,
        ),
{
    let prev_hash = BlockHash::from(<sha256d::Hash as bitcoin::hashes::Hash>::from_inner(prev_hash));
    get_target(
        nonce, version, ntime, extranonce, coinbase_prefix, coinbase_suffix, prev_hash,
        merkle_path, nbits,
    )
}

/// The order of `roles_logic_sv2::mining_sv2::Target`: two targets compare as the
/// 256-bit numbers that their bytes denote, least significant byte first.
#[verifier::external_body]
pub(crate) fn target_at_most(hash: [u8; 32], target: [u8; 32]) -> (r: bool)
    ensures
        r == (le_value(hash@) <= le_value(target@)),
{
    Target::from(hash) <= Target::from(target)
}

proof fn lemma_le_value_splits(bytes: Seq<u8>, k: int)
    requires
        0 <= k <= bytes.len(),
    ensures
        le_value(bytes) == le_value(bytes.take(k)) + pow256(k as nat) * le_value(bytes.skip(k)),
        le_value(bytes.take(k)) < pow256(k as nat),
    decreases k,
{
    if k == 0 {
        assert(bytes.skip(0) =~= bytes);
        assert(bytes.take(0).len() == 0);
        assert(1 * le_value(bytes) == le_value(bytes)) by (nonlinear_arith);
    } else {
        let rest = bytes.skip(1);
        lemma_le_value_splits(rest, k - 1);
        assert(bytes.take(k).skip(1) =~= rest.take(k - 1));
        assert(rest.skip(k - 1) =~= bytes.skip(k));
        assert(bytes.take(k)[0] == bytes[0]);
        let low = le_value(rest.take(k - 1));
        let high = le_value(rest.skip(k - 1));
        let p = pow256((k - 1) as nat);
        assert(pow256(k as nat) == 256 * p);
        assert(le_value(bytes) == bytes[0] as nat + 256 * (low + p * high));
        assert(le_value(bytes.take(k)) == bytes[0] as nat + 256 * low);
        assert(256 * (low + p * high) == 256 * low + (256 * p) * high) by (nonlinear_arith);
    }
}

/// A power of 256.
spec fn pow256(k: nat) -> nat
    decreases k,
{
    if k == 0 {
        1
    } else {
        256 * pow256((k - 1) as nat)
    }
}

/// Of two byte strings of one length, least significant byte first, the one with the
/// smaller byte at the last place where they differ denotes the smaller number.
pub proof fn the_last_difference_decides(a: Seq<u8>, b: Seq<u8>, k: int)
    requires
        a.len() == b.len(),
        0 <= k < a.len(),
        a[k] < b[k],
        forall|j: int| k < j < a.len() ==> a[j] == b[j],
    ensures
        le_value(a) < le_value(b),
{
    lemma_le_value_splits(a, k);
    lemma_le_value_splits(b, k);
    assert(a.skip(k).skip(1) =~= b.skip(k).skip(1));
    let p = pow256(k as nat);
    let x = le_value(a.skip(k));
    let y = le_value(b.skip(k));
    assert(x + 1 <= y);
    assert(p * x + p <= p * y) by (nonlinear_arith)
        requires
            x + 1 <= y,
    ;
}

} // verus!
