//! The share accounter: it passes the miners' shares on to the pool and turns the
//! pool's acknowledgement of a share into the answer that its miner waits for.
use vstd::prelude::*;

use dashmap::DashMap;

use crate::mining::SubmitSharesExtended;

verus! {

/// `dashmap::DashMap`, a concurrent hash map.
#[verifier::external_type_specification]
#[verifier::external_body]
#[verifier::reject_recursive_types(K)]
#[verifier::reject_recursive_types(V)]
#[verifier::reject_recursive_types(S)]
pub struct ExDashMap<K, V, S>(dashmap::DashMap<K, V, S>);

/// Which share was sent up last for a job.
#[derive(Debug, Clone, Copy, PartialEq, Eq, Structural)]
pub struct ShareSentUp {
    pub channel_id: u32,
    pub sequence_number: u32,
}

/// What a `DashMap` of shares holds.
pub uninterp spec fn shares_held(shares: DashMap<u32, ShareSentUp>) -> Map<u32, ShareSentUp>;

/// `DashMap::with_capacity`, for a capacity that can be allocated: a map that
/// holds nothing.
#[verifier::external_body]
fn no_shares(capacity: usize) -> (r: DashMap<u32, ShareSentUp>)
    requires
        capacity <= 0x1_0000,
    ensures
        (shares_held(r) == Map::<u32, ShareSentUp>::empty()),
{
    DashMap::with_capacity(capacity)
}

/// `DashMap::insert`: the job then leads to the given share, the other jobs lead
/// where they led.
#[verifier::external_body]
fn put_share(shares: &mut DashMap<u32, ShareSentUp>, job_id: u32, share: ShareSentUp)
    ensures
        shares_held(*final(shares)) == shares_held(*old(shares)).insert(job_id, share),
{
    shares.insert(job_id, share);
}

/// `DashMap::remove`: the job is gone, and the share it led to is handed out where
/// there was one.
#[verifier::external_body]
fn take_share(shares: &mut DashMap<u32, ShareSentUp>, job_id: u32) -> (r: Option<ShareSentUp>)
    ensures
        shares_held(*final(shares)) == shares_held(*old(shares)).remove(job_id),
        r == (if shares_held(*old(shares)).contains_key(job_id) {
            Some(shares_held(*old(shares))[job_id])
        } else {
            None::<ShareSentUp>
        }),
{
    shares.remove(&job_id).map(|entry| entry.1)
}

/// `DashMap::contains_key`: whether the job leads to a share.
#[verifier::external_body]
fn has_share(shares: &DashMap<u32, ShareSentUp>, job_id: u32) -> (r: bool)
    ensures
        r == shares_held(*shares).contains_key(job_id),
{
    shares.contains_key(&job_id)
}

/// A message of the mining protocol.
#[derive(Debug)]
pub enum Mining<M> {
    SubmitSharesExtended(SubmitSharesExtended),
    /// Any other message.
    Other(M),
}

/// The pool's acknowledgement of a share.
#[derive(Debug, Clone, Copy, PartialEq, Eq, Structural)]
pub struct ShareOk {
    pub ref_job_id: u64,
    pub share_index: u32,
}

/// A message that arrives on the connection to the pool.
#[derive(Debug)]
pub enum PoolExtMessages<M> {
    ShareOk(ShareOk),
    /// Any other message of the share accounting extension.
    OtherShareAccounting,
    Mining(Mining<M>),
    /// A message that has no place on a mining connection.
    Unexpected,
}

/// The answer to a miner whose share was accepted.
#[derive(Debug, Clone, Copy, PartialEq, Eq, Structural)]
pub struct SubmitSharesSuccess {
    pub channel_id: u32,
    pub last_sequence_number: u32,
    pub new_submits_accepted_count: u32,
    pub new_shares_sum: u64,
}

/// The shares that were sent up and not acknowledged yet, by job id.
#[derive(Debug)]
pub struct ShareAccounter {
    shares_sent_up: DashMap<u32, ShareSentUp>,
}

impl View for ShareAccounter {
    type V = Map<u32, ShareSentUp>;

    closed spec fn view(&self) -> Map<u32, ShareSentUp> {
        shares_held(self.shares_sent_up)
    }
}

/// The upper half of a 64-bit job reference.
pub open spec fn upper_half(ref_job_id: u64) -> u32 {
    (ref_job_id / 0x1_0000_0000) as u32
}

/// The lower half of a 64-bit job reference.
pub open spec fn lower_half(ref_job_id: u64) -> u32 {
    (ref_job_id % 0x1_0000_0000) as u32
}

/// The job that a reference stands for: the one in its upper half. A reference
/// whose upper half is zero stands for the job in its lower half where no share
/// was sent up for job zero.
pub open spec fn referenced_job(shares: Map<u32, ShareSentUp>, ref_job_id: u64) -> u32 {
    if shares.contains_key(upper_half(ref_job_id)) || upper_half(ref_job_id) != 0 {
        upper_half(ref_job_id)
    } else {
        lower_half(ref_job_id)
    }
}

/// Whether a reference stands for a job for which a share was sent up.
pub open spec fn reference_known(shares: Map<u32, ShareSentUp>, ref_job_id: u64) -> bool {
    shares.contains_key(referenced_job(shares, ref_job_id))
}

/// The shares sent up after one more.
pub open spec fn after_submit(shares: Map<u32, ShareSentUp>, m: SubmitSharesExtended) -> Map<
    u32,
    ShareSentUp,
> {
    shares.insert(
        m.job_id,
        ShareSentUp { channel_id: m.channel_id, sequence_number: m.sequence_number },
    )
}

/// The shares sent up after a message of the mining protocol.
pub open spec fn after_mining<M>(shares: Map<u32, ShareSentUp>, msg: Mining<M>) -> Map<
    u32,
    ShareSentUp,
> {
    match msg {
        Mining::SubmitSharesExtended(m) => after_submit(shares, m),
        Mining::Other(_) => shares,
    }
}

/// The answer to the miner of an accepted share.
pub open spec fn success_for(share: ShareSentUp) -> SubmitSharesSuccess {
    SubmitSharesSuccess {
        channel_id: share.channel_id,
        last_sequence_number: share.sequence_number,
        new_submits_accepted_count: 1,
        new_shares_sum: 1,
    }
}

impl<M> PoolExtMessages<M> {
    /// Whether a message of the pool can be acted on: an acknowledgement refers to
    /// a share that was sent up, and nothing unexpected arrives.
    pub open spec fn fits(self, shares: Map<u32, ShareSentUp>) -> bool {
        match self {
            PoolExtMessages::ShareOk(ok) => reference_known(shares, ok.ref_job_id),
            PoolExtMessages::OtherShareAccounting => true,
            PoolExtMessages::Mining(m) => m is SubmitSharesExtended,
            PoolExtMessages::Unexpected => false,
        }
    }
}

fn upper(ref_job_id: u64) -> (r: u32)
    ensures
        r == upper_half(ref_job_id),
{
    let r: u64 = ref_job_id / 0x1_0000_0000;
    r as u32
}

fn lower(ref_job_id: u64) -> (r: u32)
    ensures
        r == lower_half(ref_job_id),
{
    let r: u64 = ref_job_id % 0x1_0000_0000;
    r as u32
}

/// A share accounter that has sent nothing up.
pub fn start() -> (r: ShareAccounter)
    ensures
        r@ == Map::<u32, ShareSentUp>::empty(),
{
    ShareAccounter { shares_sent_up: no_shares(100) }
}

impl ShareAccounter {
    fn note(&mut self, m: &SubmitSharesExtended)
        ensures
            final(self)@ == after_submit(old(self)@, *m),
    {
        put_share(
            &mut self.shares_sent_up,
            m.job_id,
            ShareSentUp { channel_id: m.channel_id, sequence_number: m.sequence_number },
        );
    }

    /// A message of a miner, on its way to the pool: it is passed on as it is, and a
    /// share is noted under its job.
    pub fn relay_up<M>(&mut self, msg: Mining<M>) -> (r: PoolExtMessages<M>)
        ensures
            r == PoolExtMessages::Mining(msg),
            final(self)@ == after_mining(old(self)@, msg),
    {
        match &msg {
            Mining::SubmitSharesExtended(m) => {
                self.note(m);
            },
            Mining::Other(_) => {},
        }
        PoolExtMessages::Mining(msg)
    }

    /// Whether an acknowledgement refers to a share that was sent up.
    pub fn knows(&self, ref_job_id: u64) -> (r: bool)
        ensures
            r == reference_known(self@, ref_job_id),
    {
        let upper_id = upper(ref_job_id);
        has_share(&self.shares_sent_up, upper_id) || (upper_id == 0 && has_share(
            &self.shares_sent_up,
            lower(ref_job_id),
        ))
    }

    /// A message of the pool: the acknowledgement of a share becomes the answer to
    /// its miner, and the share is no longer outstanding. A share that arrives from
    /// this side is noted like one on its way up.
    pub fn relay_down<M>(&mut self, msg: PoolExtMessages<M>) -> (r: Option<SubmitSharesSuccess>)
        requires
            msg.fits(old(self)@),
        ensures
            match msg {
                PoolExtMessages::ShareOk(ok) => {
                    let job = referenced_job(old(self)@, ok.ref_job_id);
                    &&& r == Some(success_for(old(self)@[job]))
                    &&& final(self)@ == old(self)@.remove(job)
                },
                PoolExtMessages::Mining(m) => r is None && final(self)@ == after_mining(
                    old(self)@,
                    m,
                ),
                _ => r is None && final(self)@ == old(self)@,
            },
    {
        match msg {
            PoolExtMessages::ShareOk(ok) => {
                let upper_id = upper(ok.ref_job_id);
                let job_id = if upper_id != 0 || has_share(&self.shares_sent_up, upper_id) {
                    upper_id
                } else {
                    lower(ok.ref_job_id)
                };
                let share = take_share(&mut self.shares_sent_up, job_id).unwrap();
                Some(
                    SubmitSharesSuccess {
                        channel_id: share.channel_id,
                        last_sequence_number: share.sequence_number,
                        new_submits_accepted_count: 1,
                        new_shares_sum: 1,
                    },
                )
            },
            PoolExtMessages::Mining(Mining::SubmitSharesExtended(m)) => {
                self.note(&m);
                None
            },
            _ => None,
        }
    }
}

/// The acknowledgement of a share that was just sent up, its job in the upper half
/// of the reference, is answered with the share's channel and sequence number,
/// and the job has no outstanding share then; the shares of other jobs stay.
pub proof fn acknowledged_share_is_answered(
    shares: Map<u32, ShareSentUp>,
    m: SubmitSharesExtended,
    ref_job_id: u64,
)
    requires
        upper_half(ref_job_id) == m.job_id,
    ensures
        ({
            let sent = after_submit(shares, m);
            let job = referenced_job(sent, ref_job_id);
            &&& reference_known(sent, ref_job_id)
            &&& success_for(sent[job]) == (SubmitSharesSuccess {
                channel_id: m.channel_id,
                last_sequence_number: m.sequence_number,
                new_submits_accepted_count: 1,
                new_shares_sum: 1,
            })
            &&& sent.remove(job) == shares.remove(m.job_id)
        }),
{
    assert(after_submit(shares, m).remove(m.job_id) =~= shares.remove(m.job_id));
}

/// A share is answered once: after the answer its job has no outstanding share, and
/// the same acknowledgement, arriving again, is unknown. Only a reference whose
/// upper half is zero can stand for two outstanding jobs, zero and its lower half,
/// one after the other.
pub proof fn a_share_is_answered_once(shares: Map<u32, ShareSentUp>, ref_job_id: u64)
    requires
        reference_known(shares, ref_job_id),
        upper_half(ref_job_id) != 0 || !shares.contains_key(0) || !shares.contains_key(
            lower_half(ref_job_id),
        ) || lower_half(ref_job_id) == 0,
    ensures
        ({
            let job = referenced_job(shares, ref_job_id);
            &&& !shares.remove(job).contains_key(job)
            &&& !reference_known(shares.remove(job), ref_job_id)
        }),
{
}

/// An acknowledgement whose upper half is not zero never stands for another job than
/// the one that it names there.
pub proof fn only_the_named_job_is_answered(shares: Map<u32, ShareSentUp>, ref_job_id: u64)
    requires
        upper_half(ref_job_id) != 0,
    ensures
        referenced_job(shares, ref_job_id) == upper_half(ref_job_id),
        reference_known(shares, ref_job_id) <==> shares.contains_key(upper_half(ref_job_id)),
{
}

/// Of several shares for one job only the last is remembered: it alone is
/// answered.
pub proof fn later_share_replaces_earlier(
    shares: Map<u32, ShareSentUp>,
    first: SubmitSharesExtended,
    second: SubmitSharesExtended,
)
    requires
        first.job_id == second.job_id,
    ensures
        after_submit(after_submit(shares, first), second) == after_submit(shares, second),
{
    assert(after_submit(after_submit(shares, first), second) =~= after_submit(shares, second));
}

/// A reference is made of its two halves of 32 bits.
pub proof fn a_reference_has_two_halves(ref_job_id: u64)
    ensures
        ref_job_id == upper_half(ref_job_id) * 0x1_0000_0000 + lower_half(ref_job_id),
{
}

/// A share that is sent up is noted with its channel and its sequence number under its
/// job, and no other job's share changes; other messages change nothing.
pub proof fn a_share_is_noted_under_its_job<M>(
    shares: Map<u32, ShareSentUp>,
    m: SubmitSharesExtended,
    other: M,
    job_id: u32,
)
    ensures
        after_mining(shares, Mining::<M>::SubmitSharesExtended(m)).contains_key(m.job_id),
        after_mining(shares, Mining::<M>::SubmitSharesExtended(m))[m.job_id].channel_id
            == m.channel_id,
        after_mining(shares, Mining::<M>::SubmitSharesExtended(m))[m.job_id].sequence_number
            == m.sequence_number,
        job_id != m.job_id ==> {
            let after = after_mining(shares, Mining::<M>::SubmitSharesExtended(m));
            &&& after.contains_key(job_id) <==> shares.contains_key(job_id)
            &&& shares.contains_key(job_id) ==> after[job_id] == shares[job_id]
        },
        after_mining(shares, Mining::<M>::SubmitSharesExtended(m)) == after_submit(shares, m),
        after_mining(shares, Mining::Other(other)) == shares,
{
}

/// The answer to a share names its channel and its sequence number, and counts one
/// share.
pub proof fn an_answer_is_for_one_share(share: ShareSentUp)
    ensures
        success_for(share).channel_id == share.channel_id,
        success_for(share).last_sequence_number == share.sequence_number,
        success_for(share).new_submits_accepted_count == 1,
        success_for(share).new_shares_sum == 1,
{
}

/// A reference whose upper half is zero stands for job zero where that has an
/// outstanding share, and else for the job in its lower half; it is known exactly
/// where one of the two has one.
pub proof fn a_short_reference_names_its_lower_half(
    shares: Map<u32, ShareSentUp>,
    ref_job_id: u64,
)
    requires
        upper_half(ref_job_id) == 0,
    ensures
        shares.contains_key(0) ==> referenced_job(shares, ref_job_id) == 0,
        !shares.contains_key(0) ==> referenced_job(shares, ref_job_id) == lower_half(ref_job_id),
        reference_known(shares, ref_job_id) <==> shares.contains_key(0) || shares.contains_key(
            lower_half(ref_job_id),
        ),
{
}

/// Every known acknowledgement, every other message of the extension and every share
/// can be acted on, in any state; nothing else can.
pub proof fn known_acknowledgements_can_be_acted_on<M>(
    shares: Map<u32, ShareSentUp>,
    ok: ShareOk,
    m: SubmitSharesExtended,
    other: M,
)
    ensures
        PoolExtMessages::<M>::ShareOk(ok).fits(shares) <==> reference_known(shares, ok.ref_job_id),
        PoolExtMessages::<M>::OtherShareAccounting.fits(shares),
        PoolExtMessages::Mining(Mining::<M>::SubmitSharesExtended(m)).fits(shares),
        !PoolExtMessages::Mining(Mining::Other(other)).fits(shares),
        !PoolExtMessages::<M>::Unexpected.fits(shares),
{
}

} // verus!
