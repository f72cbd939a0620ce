//! Limiting and validating the shares that miners submit.
use vstd::prelude::*;

use std::collections::VecDeque;

use crate::chain;
use crate::text;
use crate::text::{copy_bytes, copy_list, same_text};
use crate::translator::error::Error;

verus! {

/// How many shares within a minute make the limit.
pub const MAX_SHARES_PER_MINUTE: usize = 70;

/// A minute, in nanoseconds.
pub const MINUTE: u64 = 60_000_000_000;

/// Whether a share is no longer counted: it was submitted at least a minute ago.
/// A share from the future has no age.
pub open spec fn expired(now: u64, submitted: u64) -> bool {
    now - submitted >= MINUTE
}

/// The queue without the expired shares at its front.
pub open spec fn without_expired_front(now: u64, shares: Seq<u64>) -> Seq<u64>
    decreases shares.len(),
{
    if shares.len() > 0 && expired(now, shares[0]) {
        without_expired_front(now, shares.skip(1))
    } else {
        shares
    }
}

/// The times of the shares that were let through, in nanoseconds of one clock, and
/// whether the limit is reached.
#[derive(Debug)]
pub struct ShareLimiter {
    /// The times, oldest first; nothing once a holder of their lock panicked.
    pub timestamps: Option<VecDeque<u64>>,
    pub is_rate_limited: bool,
}

impl ShareLimiter {
    /// The times of the shares, oldest first.
    pub open spec fn shares(self) -> Seq<u64> {
        match self.timestamps {
            Some(queue) => queue@,
            None => Seq::empty(),
        }
    }

    /// A limiter that has let no share through.
    pub fn new() -> (r: ShareLimiter)
        ensures
            r.timestamps is Some,
            r.shares() == Seq::<u64>::empty(),
            !r.is_rate_limited,
    {
        ShareLimiter {
            timestamps: Some(VecDeque::with_capacity(MAX_SHARES_PER_MINUTE)),
            is_rate_limited: false,
        }
    }
}

/// Drops the expired shares from the front of the queue and decides whether
/// the limit is reached: it is while at least seventy are left. Without a
/// queue there is no limit. Returns whether a share can be sent.
pub fn check_share_rate_limit(limiter: &mut ShareLimiter, now: u64) -> (r: bool)
    ensures
        r == !final(limiter).is_rate_limited,
        final(limiter).timestamps is Some <==> old(limiter).timestamps is Some,
        final(limiter).shares() == without_expired_front(now, old(limiter).shares()),
        final(limiter).is_rate_limited == (final(limiter).shares().len() >= 70),
{
    let count: usize = match &mut limiter.timestamps {
        Some(queue) => drop_expired(queue, now),
        None => 0,
    };
    limiter.is_rate_limited = count >= MAX_SHARES_PER_MINUTE;
    !limiter.is_rate_limited
}

/// Lets a share through unless the limit is reached, and notes its time.
pub fn allow_submit_share(limiter: &mut ShareLimiter, now: u64) -> (r: Result<bool, Error>)
    ensures
        final(limiter).is_rate_limited == old(limiter).is_rate_limited,
        final(limiter).timestamps is Some <==> old(limiter).timestamps is Some,
        r == (if old(limiter).is_rate_limited {
            Ok::<bool, Error>(false)
        } else if old(limiter).timestamps is None {
            Err(Error::TranslatorDiffConfigMutexPoisoned)
        } else {
            Ok(true)
        }),
        final(limiter).shares() == (if r == Ok::<bool, Error>(true) {
            old(limiter).shares().push(now)
        } else {
            old(limiter).shares()
        }),
{
    if limiter.is_rate_limited {
        return Ok(false);
    }
    match &mut limiter.timestamps {
        Some(queue) => {
            queue.push_back(now);
            Ok(true)
        },
        None => Err(Error::TranslatorDiffConfigMutexPoisoned),
    }
}

/// Drops the expired shares from the front and counts the rest.
fn drop_expired(queue: &mut VecDeque<u64>, now: u64) -> (count: usize)
    ensures
        final(queue)@ == without_expired_front(now, old(queue)@),
        count == final(queue)@.len(),
{
    loop
        invariant
            without_expired_front(now, queue@) == without_expired_front(now, old(queue)@),
        ensures
            queue@ == without_expired_front(now, old(queue)@),
        decreases queue@.len(),
    {
        if queue.len() == 0 {
            break;
        }
        let front = queue[0];
        if now < front || now - front < MINUTE {
            break;
        }
        let ghost before = queue@;
        let _ = queue.pop_front();
        proof {
            assert(queue@ =~= before.skip(1));
        }
    }
    queue.len()
}

/// Whether the shares of a queue stand in the order of their times.
pub open spec fn in_order(shares: Seq<u64>) -> bool {
    forall|i: int, j: int| 0 <= i <= j < shares.len() ==> shares[i] <= shares[j]
}

/// Of a queue in order, exactly the shares of the last minute are kept, and the
/// queue stays in order: the limit is reached if and only if at least seventy
/// shares were let through within the last minute.
pub proof fn limit_counts_the_last_minute(now: u64, shares: Seq<u64>)
    requires
        in_order(shares),
    ensures
        without_expired_front(now, shares) == shares.filter(|t: u64| now < t + 60_000_000_000),
        in_order(without_expired_front(now, shares)),
    decreases shares.len(),
{
    let fresh = |t: u64| now < t + 60_000_000_000;
    if shares.len() > 0 && expired(now, shares[0]) {
        let rest = shares.skip(1);
        limit_counts_the_last_minute(now, rest);
        assert(shares =~= seq![shares[0]] + rest);
        Seq::filter_distributes_over_add(seq![shares[0]], rest, fresh);
        assert(seq![shares[0]].filter(fresh) =~= Seq::empty()) by {
            reveal_with_fuel(Seq::filter, 2);
            assert(seq![shares[0]].drop_last() =~= Seq::empty());
        }
    } else {
        assert forall|i: int| 0 <= i < shares.len() implies fresh(#[trigger] shares[i]) by {
            assert(shares[0] <= shares[i]);
        }
        lemma_filter_keeps_all(shares, fresh);
    }
}

proof fn lemma_filter_keeps_all(shares: Seq<u64>, keep: spec_fn(u64) -> bool)
    requires
        forall|i: int| 0 <= i < shares.len() ==> keep(#[trigger] shares[i]),
    ensures
        shares.filter(keep) == shares,
    decreases shares.len(),
{
    reveal(Seq::filter);
    if shares.len() > 0 {
        lemma_filter_keeps_all(shares.drop_last(), keep);
        assert(keep(shares[shares.len() - 1]));
        assert(shares.drop_last().push(shares.last()) =~= shares);
    }
}

/// A share whose time is not before the last one's keeps the queue in order.
pub proof fn letting_through_keeps_order(shares: Seq<u64>, now: u64)
    requires
        in_order(shares),
        shares.len() > 0 ==> shares.last() <= now,
    ensures
        in_order(shares.push(now)),
{
}

/// A share as a miner submits it.
#[derive(Debug)]
pub struct Submit {
    pub job_id: String,
    pub extra_nonce2: Vec<u8>,
    pub time: u32,
    pub nonce: u32,
    pub version_bits: Option<u32>,
}

/// A job as it was announced to a miner.
#[derive(Debug)]
pub struct Notify {
    pub job_id: String,
    pub prev_hash: Vec<u8>,
    pub coin_base1: Vec<u8>,
    pub coin_base2: Vec<u8>,
    pub merkle_branch: Vec<Vec<u8>>,
    pub version: u32,
    pub bits: u32,
}

/// The version bits that a miner may roll where nothing else was agreed on.
pub const DEFAULT_VERSION_ROLLING_MASK: u32 = 0x1FFFE000;

/// The version of the header that a share stands for: the bits of the mask are
/// the miner's, where the share names any, and the others are the job's.
pub open spec fn share_version(job: u32, version_bits: Option<u32>, mask: Option<u32>) -> u32 {
    let mask = match mask {
        Some(m) => m,
        None => DEFAULT_VERSION_ROLLING_MASK,
    };
    let rolled = match version_bits {
        Some(v) => v,
        None => job,
    };
    (job & !mask) | (rolled & mask)
}

/// The coinbase transaction that a share stands for.
pub open spec fn share_coinbase(request: Submit, job: Notify, extranonce1: Seq<u8>) -> Seq<u8> {
    job.coin_base1@ + (extranonce1 + request.extra_nonce2@) + job.coin_base2@
}

/// The hash of the header that a share stands for, most significant byte first.
pub open spec fn share_hash(
    request: Submit,
    job: Notify,
    extranonce1: Seq<u8>,
    mask: Option<u32>,
) -> Seq<u8> {
    chain::header_hash(
        request.nonce,
        share_version(job.version, request.version_bits, mask),
        request.time,
        extranonce1 + request.extra_nonce2@,
        job.coin_base1@,
        job.coin_base2@,
        job.prev_hash@,
        text::bytes_of(job.merkle_branch@),
        job.bits,
    )
}

/// Whether a hash, most significant byte first, is at most a target, least
/// significant byte first.
pub fn meets_target(hash: [u8; 32], target: [u8; 32]) -> (r: bool)
    ensures
        r == (chain::le_value(hash@.reverse()) <= chain::le_value(target@)),
{
    let mut little_endian = hash;
    for i in 0..32usize
        invariant
            forall|j: int| 0 <= j < i ==> little_endian@[j] == hash@[31 - j],
    {
        little_endian[i] = hash[31 - i];
    }
    proof {
        assert(little_endian@ =~= hash@.reverse());
    }
    chain::target_at_most(little_endian, target)
}

/// The version of the header that a share stands for.
pub fn rolled_version(job: u32, version_bits: Option<u32>, mask: Option<u32>) -> (r: u32)
    ensures
        r == share_version(job, version_bits, mask),
{
    let rolled = match version_bits {
        Some(v) => v,
        None => job,
    };
    let mask = match mask {
        Some(m) => m,
        None => DEFAULT_VERSION_ROLLING_MASK,
    };
    (job & !mask) | (rolled & mask)
}

/// A byte string of 32 bytes as an array.
fn block_hash_bytes(bytes: &Vec<u8>) -> (r: [u8; 32])
    requires
        bytes@.len() == 32,
    ensures
        r@ == bytes@,
{
    let mut r = [0u8; 32];
    for i in 0..32usize
        invariant
            bytes@.len() == 32,
            forall|j: int| 0 <= j < i ==> r@[j] == bytes@[j],
    {
        r[i] = bytes[i];
    }
    proof {
        assert(r@ =~= bytes@);
    }
    r
}

/// Whether a share is valid for a job: it names the job, and the hash of its
/// header is at most the target. The previous hash has 32 bytes, and the coinbase
/// parts join to a transaction.
pub fn validate_share(
    request: &Submit,
    job: &Notify,
    target: [u8; 32],
    extranonce1: &Vec<u8>,
    version_rolling_mask: Option<u32>,
) -> (r: bool)
    requires
        request.job_id@ == job.job_id@ ==> job.prev_hash@.len() == 32,
        request.job_id@ == job.job_id@ ==> chain::tx_decodes(
            share_coinbase(*request, *job, extranonce1@),
        ),
    ensures
        r == (request.job_id@ == job.job_id@ && chain::le_value(
            share_hash(*request, *job, extranonce1@, version_rolling_mask).reverse(),
        ) <= chain::le_value(target@)),
        r == (request.job_id@ == job.job_id@ && chain::le_value(
            chain::header_hash(
                request.nonce,
                share_version(job.version, request.version_bits, version_rolling_mask),
                request.time,
                extranonce1@ + request.extra_nonce2@,
                job.coin_base1@,
                job.coin_base2@,
                job.prev_hash@,
                text::bytes_of(job.merkle_branch@),
                job.bits,
            ).reverse(),
        ) <= chain::le_value(target@)),
{
    if !same_text(request.job_id.as_str(), job.job_id.as_str()) {
        return false;
    }
    let prev_hash = block_hash_bytes(&job.prev_hash);
    let mut extranonce = copy_bytes(extranonce1);
    let mut extranonce2 = copy_bytes(&request.extra_nonce2);
    extranonce.append(&mut extranonce2);
    let version = rolled_version(job.version, request.version_bits, version_rolling_mask);
    let hash = chain::block_header_hash(
        request.nonce,
        version,
        request.time,
        &extranonce,
        &job.coin_base1,
        &job.coin_base2,
        prev_hash,
        copy_list(&job.merkle_branch),
        job.bits,
    );
    meets_target(hash, target)
}

/// Whether a share is valid for a job, as [`validate_share`] says, or `None` where
/// the share names the job and the job's previous hash has not 32 bytes or the
/// coinbase parts do not join to a transaction.
pub fn checked_validate_share(
    request: &Submit,
    job: &Notify,
    target: [u8; 32],
    extranonce1: &Vec<u8>,
    version_rolling_mask: Option<u32>,
) -> (r: Option<bool>)
    ensures
        r is None <==> request.job_id@ == job.job_id@ && !(job.prev_hash@.len() == 32
            && chain::tx_decodes(share_coinbase(*request, *job, extranonce1@))),
        r matches Some(valid) ==> valid == (request.job_id@ == job.job_id@ && chain::le_value(
            share_hash(*request, *job, extranonce1@, version_rolling_mask).reverse(),
        ) <= chain::le_value(target@)),
        r matches Some(valid) ==> valid == (request.job_id@ == job.job_id@ && chain::le_value(
            chain::header_hash(
                request.nonce,
                share_version(job.version, request.version_bits, version_rolling_mask),
                request.time,
                extranonce1@ + request.extra_nonce2@,
                job.coin_base1@,
                job.coin_base2@,
                job.prev_hash@,
                text::bytes_of(job.merkle_branch@),
                job.bits,
            ).reverse(),
        ) <= chain::le_value(target@)),
{
    if same_text(request.job_id.as_str(), job.job_id.as_str()) {
        if job.prev_hash.len() != 32 {
            return None;
        }
        let mut coinbase = copy_bytes(&job.coin_base1);
        let mut extranonce = copy_bytes(extranonce1);
        let mut extranonce2 = copy_bytes(&request.extra_nonce2);
        extranonce.append(&mut extranonce2);
        coinbase.append(&mut extranonce);
        let mut suffix = copy_bytes(&job.coin_base2);
        coinbase.append(&mut suffix);
        if !chain::transaction_decodes(&coinbase) {
            return None;
        }
    }
    Some(validate_share(request, job, target, extranonce1, version_rolling_mask))
}

/// The header version of a share takes the bits of the mask from the share and all
/// others from the job, and is the job's where the share names no version.
pub proof fn version_rolls_within_the_mask(job: u32, bits: u32, mask: u32)
    ensures
        share_version(job, None, None) == job,
        share_version(job, Some(bits), None) & 0x1FFFE000 == bits & 0x1FFFE000,
        share_version(job, Some(bits), None) & !0x1FFFE000 == job & !0x1FFFE000,
        share_version(job, Some(bits), Some(mask)) & mask == bits & mask,
        share_version(job, Some(bits), Some(mask)) & !mask == job & !mask,
        share_version(job, None, Some(mask)) == job,
        share_version(job, Some(bits), None) & !DEFAULT_VERSION_ROLLING_MASK == job
            & !DEFAULT_VERSION_ROLLING_MASK,
{
    assert(((job & !mask) | (bits & mask)) & mask == bits & mask) by (bit_vector);
    assert(((job & !mask) | (bits & mask)) & !mask == job & !mask) by (bit_vector);
    assert((job & !mask) | (job & mask) == job) by (bit_vector);
    let default = DEFAULT_VERSION_ROLLING_MASK;
    assert(((job & !default) | (bits & default)) & !default == job & !default) by (bit_vector);
    assert(((job & !default) | (bits & default)) & default == bits & default) by (bit_vector);
    assert((job & !default) | (job & default) == job) by (bit_vector);
}

/// A share is judged by its own header: the one on the job's previous hash, with the
/// share's time and nonce, the job's difficulty and merkle branch, the coinbase
/// transaction with both extranonces between the job's two parts, and the version
/// whose bits are the share's within the mask and the job's outside it. Where no
/// mask was agreed on it is `0x1FFFE000`, and a share that names no bits has the
/// job's.
pub proof fn a_share_is_judged_by_its_own_header(
    request: Submit,
    job: Notify,
    extranonce1: Seq<u8>,
    mask: Option<u32>,
    version: u32,
)
    requires
        ({
            let m: u32 = match mask {
                Some(m) => m,
                None => 0x1FFFE000,
            };
            let bits: u32 = match request.version_bits {
                Some(bits) => bits,
                None => job.version,
            };
            version & m == bits & m && version & !m == job.version & !m
        }),
    ensures
        share_hash(request, job, extranonce1, mask) == chain::header_hash(
            request.nonce,
            version,
            request.time,
            extranonce1 + request.extra_nonce2@,
            job.coin_base1@,
            job.coin_base2@,
            job.prev_hash@,
            text::bytes_of(job.merkle_branch@),
            job.bits,
        ),
        share_coinbase(request, job, extranonce1) == job.coin_base1@ + extranonce1
            + request.extra_nonce2@ + job.coin_base2@,
{
    let m: u32 = match mask {
        Some(m) => m,
        None => 0x1FFFE000,
    };
    let bits: u32 = match request.version_bits {
        Some(bits) => bits,
        None => job.version,
    };
    let own = job.version;
    assert(version == (own & !m) | (bits & m)) by (bit_vector)
        requires
            version & m == bits & m,
            version & !m == own & !m,
    ;
    assert(share_coinbase(request, job, extranonce1) =~= job.coin_base1@ + extranonce1
        + request.extra_nonce2@ + job.coin_base2@);
}

/// Whatever the order of a queue, shares leave it only from the front, each of them at
/// least a minute old, until the first one that is younger.
pub proof fn only_the_expired_front_is_dropped(now: u64, shares: Seq<u64>)
    ensures
        ({
            let kept = without_expired_front(now, shares);
            let dropped = shares.len() - kept.len();
            &&& 0 <= dropped <= shares.len()
            &&& kept == shares.skip(dropped)
            &&& forall|i: int| 0 <= i < dropped ==> now >= #[trigger] shares[i] + 60_000_000_000
            &&& kept.len() > 0 ==> now < kept[0] + 60_000_000_000
        }),
    decreases shares.len(),
{
    if shares.len() > 0 && expired(now, shares[0]) {
        let rest = shares.skip(1);
        only_the_expired_front_is_dropped(now, rest);
        let dropped = rest.len() - without_expired_front(now, rest).len();
        assert(rest.skip(dropped) =~= shares.skip(dropped + 1));
        assert forall|i: int| 0 <= i < dropped + 1 implies now >= #[trigger] shares[i]
            + 60_000_000_000 by {
            if i > 0 {
                assert(rest[i - 1] == shares[i]);
            }
        }
    } else {
        assert(shares.skip(0) =~= shares);
    }
}

/// The shares of a limiter are those of its queue; without a queue there are none.
pub proof fn the_queue_is_what_is_counted(limiter: ShareLimiter)
    ensures
        limiter.timestamps matches Some(queue) ==> limiter.shares() == queue@,
        limiter.timestamps is None ==> limiter.shares().len() == 0,
{
}

} // verus!
