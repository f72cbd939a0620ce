//! Opening a channel for every miner that connects.
use vstd::prelude::*;

use crate::translator::error::Error;

verus! {

/// How far accepting connections has come.
#[derive(Debug)]
pub enum AcceptStage {
    /// No miner is being dealt with.
    AwaitingDownstream,
    /// The bridge is asked whether it is ready for the miner at this address.
    AwaitingBridge { address: String },
    /// A channel is being opened for the miner at this address.
    Opening { address: String },
    /// The miner is being set up.
    SettingUp,
    /// No more connections are accepted.
    Stopped,
}

/// A channel that was opened for a miner, with the job that was announced last,
/// where there is one.
#[derive(Debug)]
pub struct OpenedChannel<N> {
    pub channel_id: u32,
    pub extranonce: Vec<u8>,
    pub last_notify: Option<N>,
    pub extranonce2_len: u16,
}

/// What came of opening a channel.
#[derive(Debug)]
pub enum OpenOutcome<N> {
    /// The bridge's lock was poisoned.
    BridgePoisoned,
    /// The bridge refused.
    Refused,
    Opened(OpenedChannel<N>),
}

/// What happened while connections are accepted.
#[derive(Debug)]
pub enum AcceptEvent<N> {
    /// A miner connected from this address; nothing when there will be no more.
    Downstream(Option<String>),
    /// The bridge is ready, or will not be.
    BridgeReady { ok: bool },
    /// Opening a channel ended.
    Opened(OpenOutcome<N>),
    /// The miner is set up.
    SetUp,
}

/// What to do next to accept connections.
#[derive(Debug)]
pub enum AcceptAction<N> {
    /// Wait for a miner.
    AwaitDownstream,
    /// Wait until the bridge is ready.
    AwaitBridge,
    /// Open a channel.
    OpenChannel,
    /// Set a miner up.
    NewDownstream { channel: OpenedChannel<N>, extranonce2_len: usize, address: String },
    /// Stop.
    Stop,
    /// Mark the translator's miners as down and stop.
    MarkDownAndStop,
}

/// Whether an event can come at a stage.
pub open spec fn event_due<N>(stage: AcceptStage, event: AcceptEvent<N>) -> bool {
    match stage {
        AcceptStage::AwaitingDownstream => event is Downstream,
        AcceptStage::AwaitingBridge { .. } => event is BridgeReady,
        AcceptStage::Opening { .. } => event is Opened,
        AcceptStage::SettingUp => event is SetUp,
        AcceptStage::Stopped => false,
    }
}

/// Whether a stage and an action are what follows an event at a stage.
pub open spec fn is_accept_step<N>(
    before: AcceptStage,
    event: AcceptEvent<N>,
    stage: AcceptStage,
    action: AcceptAction<N>,
) -> bool {
    match event {
        AcceptEvent::Downstream(None) => stage is Stopped && action is Stop,
        AcceptEvent::Downstream(Some(address)) => stage == AcceptStage::AwaitingBridge { address }
            && action is AwaitBridge,
        AcceptEvent::BridgeReady { ok } => if ok {
            stage == AcceptStage::Opening { address: before->AwaitingBridge_address }
                && action is OpenChannel
        } else {
            stage is Stopped && action is Stop
        },
        AcceptEvent::Opened(OpenOutcome::BridgePoisoned) => stage is Stopped && action is Stop,
        AcceptEvent::Opened(OpenOutcome::Refused) => stage is Stopped && action is MarkDownAndStop,
        AcceptEvent::Opened(OpenOutcome::Opened(channel)) => stage is SettingUp && action
            == AcceptAction::NewDownstream {
            channel,
            extranonce2_len: channel.extranonce2_len as usize,
            address: before->Opening_address,
        },
        AcceptEvent::SetUp => stage is AwaitingDownstream && action is AwaitDownstream,
    }
}

/// The next step of accepting connections: a channel is opened for each miner, one
/// after the other, until something fails or there will be no more.
pub fn start_accept_connection<N>(before: AcceptStage, event: AcceptEvent<N>) -> (r: (
    AcceptStage,
    AcceptAction<N>,
))
    requires
        event_due(before, event),
    ensures
        is_accept_step(before, event, r.0, r.1),
{
    match event {
        AcceptEvent::Downstream(None) => (AcceptStage::Stopped, AcceptAction::Stop),
        AcceptEvent::Downstream(Some(address)) => (
            AcceptStage::AwaitingBridge { address },
            AcceptAction::AwaitBridge,
        ),
        AcceptEvent::BridgeReady { ok } => {
            if !ok {
                return (AcceptStage::Stopped, AcceptAction::Stop);
            }
            match before {
                AcceptStage::AwaitingBridge { address } => (
                    AcceptStage::Opening { address },
                    AcceptAction::OpenChannel,
                ),
                _ => (AcceptStage::Stopped, AcceptAction::Stop),
            }
        },
        AcceptEvent::Opened(OpenOutcome::BridgePoisoned) => (
            AcceptStage::Stopped,
            AcceptAction::Stop,
        ),
        AcceptEvent::Opened(OpenOutcome::Refused) => (
            AcceptStage::Stopped,
            AcceptAction::MarkDownAndStop,
        ),
        AcceptEvent::Opened(OpenOutcome::Opened(channel)) => {
            match before {
                AcceptStage::Opening { address } => {
                    let extranonce2_len = channel.extranonce2_len as usize;
                    (
                        AcceptStage::SettingUp,
                        AcceptAction::NewDownstream { channel, extranonce2_len, address },
                    )
                },
                _ => (AcceptStage::Stopped, AcceptAction::Stop),
            }
        },
        AcceptEvent::SetUp => (AcceptStage::AwaitingDownstream, AcceptAction::AwaitDownstream),
    }
}

/// What registering the task of a miner's connection comes to.
pub fn task_registered(registered: bool) -> (r: Result<(), Error>)
    ensures
        r == (if registered {
            Ok::<(), Error>(())
        } else {
            Err(Error::TranslatorTaskManagerFailed)
        }),
{
    if registered {
        Ok(())
    } else {
        Err(Error::TranslatorTaskManagerFailed)
    }
}

/// A miner is set up only after the bridge was ready and opened a channel, at the
/// address from which it connected; only a refused channel marks the
/// translator's miners as down.
pub proof fn miners_are_set_up_on_opened_channels<N>(
    s0: AcceptStage,
    e0: AcceptEvent<N>,
    s1: AcceptStage,
    a0: AcceptAction<N>,
    e1: AcceptEvent<N>,
    s2: AcceptStage,
    a1: AcceptAction<N>,
    e2: AcceptEvent<N>,
    s3: AcceptStage,
    a2: AcceptAction<N>,
)
    requires
        event_due(s0, e0),
        is_accept_step(s0, e0, s1, a0),
        event_due(s1, e1),
        is_accept_step(s1, e1, s2, a1),
        event_due(s2, e2),
        is_accept_step(s2, e2, s3, a2),
        a2 is NewDownstream,
    ensures
        e0 matches AcceptEvent::Downstream(Some(address)) && a2->address == address,
        e1 == (AcceptEvent::<N>::BridgeReady { ok: true }),
        e2 matches AcceptEvent::Opened(OpenOutcome::Opened(channel)) && a2->channel == channel,
{
}

/// Once stopped, no further event is taken, and every stop is final.
pub proof fn a_stopped_listener_stays_stopped<N>(
    before: AcceptStage,
    event: AcceptEvent<N>,
    stage: AcceptStage,
    action: AcceptAction<N>,
)
    requires
        event_due(before, event),
        is_accept_step(before, event, stage, action),
    ensures
        stage is Stopped <==> action is Stop || action is MarkDownAndStop,
        action is MarkDownAndStop <==> event == AcceptEvent::<N>::Opened(OpenOutcome::Refused),
        stage is Stopped ==> forall|next: AcceptEvent<N>| !event_due(stage, next),
{
}

/// At every stage but the last, the work of the stage can end, however it ends, and
/// nothing else can happen.
pub proof fn every_stage_awaits_its_event<N>(before: AcceptStage, event: AcceptEvent<N>)
    ensures
        before is AwaitingDownstream ==> (event_due(before, event) <==> event is Downstream),
        before is AwaitingBridge ==> (event_due(before, event) <==> event is BridgeReady),
        before is Opening ==> (event_due(before, event) <==> event is Opened),
        before is SettingUp ==> (event_due(before, event) <==> event is SetUp),
        before is Stopped ==> !event_due(before, event),
{
}

/// Every miner that connects is served: its address is kept while the bridge is asked
/// and the channel opened, the miner is set up with the whole channel at that
/// address, and then the next one is awaited. Nothing but the end of the miners, a
/// bridge that is not ready, a poisoned bridge or a refusal stops that.
pub proof fn every_miner_is_served<N>(
    before: AcceptStage,
    event: AcceptEvent<N>,
    stage: AcceptStage,
    action: AcceptAction<N>,
)
    requires
        event_due(before, event),
        is_accept_step(before, event, stage, action),
    ensures
        before is AwaitingDownstream && event->Downstream_0 is Some ==> stage is AwaitingBridge
            && stage->AwaitingBridge_address == event->Downstream_0->0 && action is AwaitBridge,
        before is AwaitingDownstream && event->Downstream_0 is None ==> stage is Stopped && action
            is Stop,
        before is AwaitingBridge && event->ok ==> stage is Opening && stage->Opening_address
            == before->AwaitingBridge_address && action is OpenChannel,
        before is AwaitingBridge && !event->ok ==> stage is Stopped && action is Stop,
        before is Opening && event->Opened_0 is Opened ==> stage is SettingUp && action
            is NewDownstream && action->channel == event->Opened_0->Opened_0
            && action->extranonce2_len == action->channel.extranonce2_len && action->address
            == before->Opening_address,
        before is Opening && event->Opened_0 is BridgePoisoned ==> stage is Stopped && action
            is Stop,
        before is Opening && event->Opened_0 is Refused ==> stage is Stopped && action
            is MarkDownAndStop,
        before is SettingUp ==> stage is AwaitingDownstream && action is AwaitDownstream,
{
}

} // verus!
