//! Collecting the miners' shares and sending them to the monitoring server in
//! batches.
use vstd::prelude::*;

verus! {

/// Where the shares are sent.
pub const MONITORING_SERVER_URL: &'static str = "http://localhost:8787/api/share/save";

/// How many shares make a batch.
pub const BATCH_SIZE: u32 = 20;

/// How often the pending shares are looked at, in seconds.
pub const MONITOR_INTERVAL_SECS: u64 = 60;

/// A share as the monitoring server is told of it. The difficulty is held as the
/// bits of its single precision number.
#[derive(Debug)]
pub struct SharesInfo {
    pub worker_name: String,
    pub difficulty: u32,
    pub job_id: i64,
    pub nonce: i64,
    pub ntime: i64,
}

/// What a [`SharesInfo`] holds.
pub struct SharesInfoView {
    pub worker_name: Seq<char>,
    pub difficulty: u32,
    pub job_id: i64,
    pub nonce: i64,
    pub ntime: i64,
}

impl View for SharesInfo {
    type V = SharesInfoView;

    open spec fn view(&self) -> SharesInfoView {
        SharesInfoView {
            worker_name: self.worker_name@,
            difficulty: self.difficulty,
            job_id: self.job_id,
            nonce: self.nonce,
            ntime: self.ntime,
        }
    }
}

impl Clone for SharesInfo {
    fn clone(&self) -> (r: Self)
        ensures
            r@ == self@,
    {
        SharesInfo {
            worker_name: self.worker_name.clone(),
            difficulty: self.difficulty,
            job_id: self.job_id,
            nonce: self.nonce,
            ntime: self.ntime,
        }
    }
}

impl SharesInfo {
    /// A share of a worker.
    pub fn new(worker_name: String, difficulty: u32, job_id: i64, nonce: i64, ntime: i64) -> (r:
        SharesInfo)
        ensures
            r@ == (SharesInfoView {
                worker_name: worker_name@,
                difficulty,
                job_id,
                nonce,
                ntime,
            }),
    {
        SharesInfo { worker_name, difficulty, job_id, nonce, ntime }
    }
}

/// The shares of a list, by what they hold.
pub open spec fn shares_of(list: Seq<SharesInfo>) -> Seq<SharesInfoView> {
    list.map_values(|s: SharesInfo| s@)
}

/// The shares that were not sent yet.
#[derive(Debug)]
pub struct SharesMonitor {
    /// The shares, in the order in which they came; nothing once a holder of their
    /// lock panicked.
    pub pending_shares: Option<Vec<SharesInfo>>,
    pub batch_size: u32,
}

/// What became of the lock of the pending shares.
#[derive(Debug, Clone, Copy, PartialEq, Eq, Structural)]
pub enum PendingLock {
    Taken,
    /// It was poisoned: the translator's miners are to be marked as down.
    Poisoned,
}

/// What happened while shares are monitored.
#[derive(Debug)]
pub enum MonitorEvent<E> {
    /// It is time to look at the pending shares.
    Tick,
    /// The batch was sent.
    Sent,
    /// The batch could not be sent.
    SendFailed(E),
}

/// What to do next to monitor shares.
#[derive(Debug)]
pub enum MonitorAction<E> {
    /// Send these shares.
    Send(Vec<SharesInfo>),
    /// Wait for more shares.
    AwaitBatch,
    /// Report that there are no shares, and wait.
    ReportEmpty,
    /// Wait for the next tick.
    AwaitTick,
    /// Stop with this error.
    Fail(E),
}

impl SharesMonitor {
    /// The shares that were not sent yet, in the order in which they came.
    pub open spec fn pending(self) -> Seq<SharesInfoView> {
        match self.pending_shares {
            Some(list) => shares_of(list@),
            None => Seq::empty(),
        }
    }

    /// What the lock of the pending shares gives.
    pub open spec fn lock(self) -> PendingLock {
        if self.pending_shares is Some {
            PendingLock::Taken
        } else {
            PendingLock::Poisoned
        }
    }

    /// A monitor without shares, with batches of the default size.
    pub fn new() -> (r: SharesMonitor)
        ensures
            r.pending() == Seq::<SharesInfoView>::empty(),
            r.lock() is Taken,
            r.batch_size == BATCH_SIZE,
            r.batch_size == 20,
    {
        let monitor = SharesMonitor { pending_shares: Some(Vec::new()), batch_size: BATCH_SIZE };
        proof {
            assert(monitor.pending() =~= Seq::empty());
        }
        monitor
    }

    /// Adds a share to the pending ones.
    pub fn insert_share(&mut self, share: SharesInfo) -> (r: PendingLock)
        ensures
            r == old(self).lock(),
            final(self).lock() == old(self).lock(),
            final(self).batch_size == old(self).batch_size,
            final(self).pending() == (if r is Taken {
                old(self).pending().push(share@)
            } else {
                old(self).pending()
            }),
    {
        match &mut self.pending_shares {
            Some(list) => {
                list.push(share);
                proof {
                    assert(shares_of(list@) =~= shares_of(
                        old(self).pending_shares->0@,
                    ).push(share@));
                }
                PendingLock::Taken
            },
            None => PendingLock::Poisoned,
        }
    }

    /// The pending shares; none where their lock is poisoned.
    pub fn get_pending_shares(&self) -> (r: (Vec<SharesInfo>, PendingLock))
        ensures
            shares_of(r.0@) == self.pending(),
            r.1 == self.lock(),
    {
        match &self.pending_shares {
            Some(list) => {
                let mut copies: Vec<SharesInfo> = Vec::new();
                for i in 0..list.len()
                    invariant
                        copies@.len() == i,
                        forall|j: int| 0 <= j < i ==> (#[trigger] copies@[j])@ == list@[j]@,
                {
                    copies.push(list[i].clone());
                }
                proof {
                    assert(shares_of(copies@) =~= shares_of(list@));
                }
                (copies, PendingLock::Taken)
            },
            None => {
                let none: Vec<SharesInfo> = Vec::new();
                proof {
                    assert(shares_of(none@) =~= Seq::empty());
                }
                (none, PendingLock::Poisoned)
            },
        }
    }

    /// Forgets the pending shares.
    pub fn clear_pending_shares(&mut self) -> (r: PendingLock)
        ensures
            r == old(self).lock(),
            final(self).lock() == old(self).lock(),
            final(self).batch_size == old(self).batch_size,
            final(self).pending() == Seq::<SharesInfoView>::empty(),
    {
        match &mut self.pending_shares {
            Some(list) => {
                list.clear();
                proof {
                    assert(shares_of(list@) =~= Seq::empty());
                }
                PendingLock::Taken
            },
            None => PendingLock::Poisoned,
        }
    }

    /// The next step of monitoring, and what became of the lock on the way. On a
    /// tick the pending shares are sent once they make a batch; they are forgotten
    /// when they were sent and kept when that failed, which ends the monitoring.
    pub fn monitor<E>(&mut self, event: MonitorEvent<E>) -> (r: (MonitorAction<E>, PendingLock))
        ensures
            final(self).lock() == old(self).lock(),
            final(self).batch_size == old(self).batch_size,
            match event {
                MonitorEvent::Tick => {
                    &&& final(self).pending() == old(self).pending()
                    &&& r.1 == old(self).lock()
                    &&& if batch_due(old(self).pending(), old(self).batch_size) {
                        r.0 matches MonitorAction::Send(shares) && shares_of(shares@) == old(
                            self,
                        ).pending()
                    } else if old(self).pending().len() == 0 {
                        r.0 is ReportEmpty
                    } else {
                        r.0 is AwaitBatch
                    }
                },
                MonitorEvent::Sent => {
                    &&& final(self).pending() == Seq::<SharesInfoView>::empty()
                    &&& r.0 is AwaitTick
                    &&& r.1 == old(self).lock()
                },
                MonitorEvent::SendFailed(e) => {
                    &&& final(self).pending() == old(self).pending()
                    &&& r.0 == MonitorAction::Fail(e)
                    &&& r.1 is Taken
                },
            },
    {
        match event {
            MonitorEvent::Tick => {
                let (shares_to_send, lock) = self.get_pending_shares();
                if shares_to_send.len() == 0 {
                    (MonitorAction::ReportEmpty, lock)
                } else if shares_to_send.len() >= self.batch_size as usize {
                    (MonitorAction::Send(shares_to_send), lock)
                } else {
                    (MonitorAction::AwaitBatch, lock)
                }
            },
            MonitorEvent::Sent => {
                let lock = self.clear_pending_shares();
                (MonitorAction::AwaitTick, lock)
            },
            MonitorEvent::SendFailed(e) => (MonitorAction::Fail(e), PendingLock::Taken),
        }
    }
}

/// What reaches the monitor: a share, or a tick after which the batch, where one is
/// due, is sent before the next share comes.
pub enum MonitorInput {
    Share(SharesInfoView),
    Round,
}

/// Whether pending shares make a batch.
pub open spec fn batch_due(pending: Seq<SharesInfoView>, batch_size: u32) -> bool {
    pending.len() > 0 && pending.len() >= batch_size
}

/// The shares that were sent, and those that are pending, after all inputs.
pub open spec fn sent_and_pending(inputs: Seq<MonitorInput>, batch_size: u32) -> (
    Seq<SharesInfoView>,
    Seq<SharesInfoView>,
)
    decreases inputs.len(),
{
    if inputs.len() == 0 {
        (Seq::empty(), Seq::empty())
    } else {
        let (sent, pending) = sent_and_pending(inputs.drop_last(), batch_size);
        match inputs.last() {
            MonitorInput::Share(share) => (sent, pending.push(share)),
            MonitorInput::Round => if batch_due(pending, batch_size) {
                (sent + pending, Seq::empty())
            } else {
                (sent, pending)
            },
        }
    }
}

/// All shares among the inputs, in order.
pub open spec fn shares_among(inputs: Seq<MonitorInput>) -> Seq<SharesInfoView>
    decreases inputs.len(),
{
    if inputs.len() == 0 {
        Seq::empty()
    } else {
        match inputs.last() {
            MonitorInput::Share(share) => shares_among(inputs.drop_last()).push(share),
            MonitorInput::Round => shares_among(inputs.drop_last()),
        }
    }
}

/// Every share is sent once and in order, or is still pending, as long as none
/// comes between the sending of a batch and its confirmation.
pub proof fn every_share_is_sent_once_or_pending(inputs: Seq<MonitorInput>, batch_size: u32)
    ensures
        sent_and_pending(inputs, batch_size).0 + sent_and_pending(inputs, batch_size).1
            == shares_among(inputs),
    decreases inputs.len(),
{
    if inputs.len() > 0 {
        every_share_is_sent_once_or_pending(inputs.drop_last(), batch_size);
        let (sent, pending) = sent_and_pending(inputs.drop_last(), batch_size);
        match inputs.last() {
            MonitorInput::Share(share) => {
                assert(sent + pending.push(share) =~= (sent + pending).push(share));
            },
            MonitorInput::Round => {
                assert((sent + pending) + Seq::empty() =~= sent + pending);
            },
        }
    } else {
        assert(sent_and_pending(inputs, batch_size).0 + sent_and_pending(inputs, batch_size).1
            =~= shares_among(inputs));
    }
}

/// A share is seen with its worker, its difficulty, its job, its nonce and its time,
/// and a list share by share.
pub proof fn shares_are_seen_whole(share: SharesInfo, list: Seq<SharesInfo>, i: int)
    ensures
        share@.worker_name == share.worker_name@,
        share@.difficulty == share.difficulty,
        share@.job_id == share.job_id,
        share@.nonce == share.nonce,
        share@.ntime == share.ntime,
        shares_of(list).len() == list.len(),
        0 <= i < list.len() ==> shares_of(list)[i] == list[i]@,
{
}

/// The pending shares of a monitor are those of its list, all of them and in order;
/// without a list there are none, and the lock counts as poisoned.
pub proof fn pending_shares_are_those_of_the_list(monitor: SharesMonitor)
    ensures
        monitor.pending_shares matches Some(list) ==> monitor.lock() is Taken && monitor.pending()
            == list@.map_values(|s: SharesInfo| s@),
        monitor.pending_shares is None ==> monitor.lock() is Poisoned && monitor.pending().len()
            == 0,
{
}

/// Shares are due as soon as, and only when, there are any and they fill a batch; so
/// after a round fewer than a batch are pending.
pub proof fn a_full_batch_is_due(
    pending: Seq<SharesInfoView>,
    batch_size: u32,
    inputs: Seq<MonitorInput>,
)
    ensures
        pending.len() >= 1 && pending.len() >= batch_size ==> batch_due(pending, batch_size),
        pending.len() == 0 || pending.len() < batch_size ==> !batch_due(pending, batch_size),
        inputs.len() > 0 && inputs.last() is Round ==> sent_and_pending(inputs, batch_size).1.len()
            == 0 || sent_and_pending(inputs, batch_size).1.len() < batch_size,
{
}

} // verus!
