//! The translator between miners and the pool: how its parts come up.
pub mod downstream;
pub mod error;
pub mod utils;

use vstd::prelude::*;

verus! {

/// How far the translator has come up.
#[derive(Debug, Clone, Copy, PartialEq, Eq, Structural)]
pub enum StartStage {
    /// The channels are being offered to the pool's side.
    ConnectingPool,
    /// The upstream is being made.
    CreatingUpstream,
    /// The upstream is being started.
    StartingUpstream,
    /// The upstream's task is being registered.
    RegisteringUpstream,
    /// The task that brings the rest up is being registered.
    RegisteringStartup,
    /// The translator runs.
    Started,
    /// The translator could not be started.
    Failed,
}

/// What to do next to bring the translator up.
#[derive(Debug, Clone, Copy, PartialEq, Eq, Structural)]
pub enum StartAction {
    /// Make the upstream, with this size for the extranonce.
    CreateUpstream { min_extranonce_size: u16 },
    /// Start the upstream.
    StartUpstream,
    /// Register the upstream's task.
    RegisterUpstream,
    /// Spawn the startup task and register it.
    RegisterStartup,
    /// Hand the translator out.
    Finish,
    /// Give up.
    Fail,
}

/// What follows when the work of a stage ended. All but registering the upstream
/// is sure to succeed.
pub open spec fn start_step(stage: StartStage, ok: bool, min_extranonce_size: u16) -> (
    StartStage,
    StartAction,
) {
    match stage {
        StartStage::ConnectingPool => (
            StartStage::CreatingUpstream,
            StartAction::CreateUpstream { min_extranonce_size: (min_extranonce_size - 1) as u16 },
        ),
        StartStage::CreatingUpstream => (StartStage::StartingUpstream, StartAction::StartUpstream),
        StartStage::StartingUpstream => (
            StartStage::RegisteringUpstream,
            StartAction::RegisterUpstream,
        ),
        StartStage::RegisteringUpstream => if ok {
            (StartStage::RegisteringStartup, StartAction::RegisterStartup)
        } else {
            (StartStage::Failed, StartAction::Fail)
        },
        StartStage::RegisteringStartup => (StartStage::Started, StartAction::Finish),
        StartStage::Started => (StartStage::Started, StartAction::Finish),
        StartStage::Failed => (StartStage::Failed, StartAction::Fail),
    }
}

/// The next step of bringing the translator up, when the work of a stage ended.
/// Only registering the upstream may fail; a miner's extranonce takes one byte.
pub fn start(stage: StartStage, ok: bool, min_extranonce_size: u16) -> (r: (
    StartStage,
    StartAction,
))
    requires
        min_extranonce_size >= 1,
        ok || stage == StartStage::RegisteringUpstream,
    ensures
        r == start_step(stage, ok, min_extranonce_size),
{
    match stage {
        StartStage::ConnectingPool => (
            StartStage::CreatingUpstream,
            StartAction::CreateUpstream { min_extranonce_size: min_extranonce_size - 1 },
        ),
        StartStage::CreatingUpstream => (StartStage::StartingUpstream, StartAction::StartUpstream),
        StartStage::StartingUpstream => (
            StartStage::RegisteringUpstream,
            StartAction::RegisterUpstream,
        ),
        StartStage::RegisteringUpstream => {
            if ok {
                (StartStage::RegisteringStartup, StartAction::RegisterStartup)
            } else {
                (StartStage::Failed, StartAction::Fail)
            }
        },
        StartStage::RegisteringStartup => (StartStage::Started, StartAction::Finish),
        StartStage::Started => (StartStage::Started, StartAction::Finish),
        StartStage::Failed => (StartStage::Failed, StartAction::Fail),
    }
}

/// How far the task that brings the bridge and the miners' side up has come.
#[derive(Debug, Clone, Copy, PartialEq, Eq, Structural)]
pub enum StartupStage {
    /// The upstream's extranonce is awaited.
    AwaitingExtranonce,
    /// The upstream's target is awaited.
    AwaitingTarget,
    /// The bridge is being started.
    StartingBridge,
    /// The miners' side is being started.
    AcceptingConnections,
    /// The bridge's task is being registered.
    RegisteringBridge,
    /// The listener's task is being registered.
    RegisteringListener,
    /// Everything runs.
    Running,
}

/// What happened while the bridge and the miners' side come up.
#[derive(Debug)]
pub enum StartupEvent {
    /// The upstream gave its extranonce.
    Extranonce,
    /// The upstream's target, as it is now.
    Target(Vec<u8>),
    /// The work of the stage is done.
    Done,
}

/// What to do next to bring the bridge and the miners' side up.
#[derive(Debug, Clone, Copy, PartialEq, Eq, Structural)]
pub enum StartupAction {
    /// Look at the target.
    ReadTarget,
    /// Make the bridge and start it.
    StartBridge,
    /// Accept connections of miners.
    AcceptConnections,
    /// Register the bridge's task.
    RegisterBridge,
    /// Register the listener's task.
    RegisterListener,
    /// Nothing more.
    Finish,
}

/// Whether a target is still unset: 32 zero bytes.
pub open spec fn target_unset(target: Seq<u8>) -> bool {
    forall|i: int| 0 <= i < target.len() ==> #[trigger] target[i] == 0
}

/// Whether an event can come at a stage.
pub open spec fn event_due(stage: StartupStage, event: StartupEvent) -> bool {
    match stage {
        StartupStage::AwaitingExtranonce => event is Extranonce,
        StartupStage::AwaitingTarget => event matches StartupEvent::Target(target)
            && target@.len() == 32,
        StartupStage::Running => false,
        _ => event is Done,
    }
}

/// What follows an event while the bridge and the miners' side come up.
pub open spec fn startup_step(stage: StartupStage, event: StartupEvent) -> (
    StartupStage,
    StartupAction,
) {
    match stage {
        StartupStage::AwaitingExtranonce => (
            StartupStage::AwaitingTarget,
            StartupAction::ReadTarget,
        ),
        StartupStage::AwaitingTarget => if target_unset(event->Target_0@) {
            (StartupStage::AwaitingTarget, StartupAction::ReadTarget)
        } else {
            (StartupStage::StartingBridge, StartupAction::StartBridge)
        },
        StartupStage::StartingBridge => (
            StartupStage::AcceptingConnections,
            StartupAction::AcceptConnections,
        ),
        StartupStage::AcceptingConnections => (
            StartupStage::RegisteringBridge,
            StartupAction::RegisterBridge,
        ),
        StartupStage::RegisteringBridge => (
            StartupStage::RegisteringListener,
            StartupAction::RegisterListener,
        ),
        StartupStage::RegisteringListener => (StartupStage::Running, StartupAction::Finish),
        StartupStage::Running => (StartupStage::Running, StartupAction::Finish),
    }
}

fn is_unset(target: &Vec<u8>) -> (r: bool)
    ensures
        r == target_unset(target@),
{
    for i in 0..target.len()
        invariant
            forall|j: int| 0 <= j < i ==> #[trigger] target@[j] == 0,
    {
        if target[i] != 0 {
            return false;
        }
    }
    true
}

/// The next step of bringing the bridge and the miners' side up.
pub fn startup(stage: StartupStage, event: StartupEvent) -> (r: (StartupStage, StartupAction))
    requires
        event_due(stage, event),
    ensures
        r == startup_step(stage, event),
{
    match stage {
        StartupStage::AwaitingExtranonce => (
            StartupStage::AwaitingTarget,
            StartupAction::ReadTarget,
        ),
        StartupStage::AwaitingTarget => {
            let unset = match &event {
                StartupEvent::Target(target) => is_unset(target),
                _ => true,
            };
            if unset {
                (StartupStage::AwaitingTarget, StartupAction::ReadTarget)
            } else {
                (StartupStage::StartingBridge, StartupAction::StartBridge)
            }
        },
        StartupStage::StartingBridge => (
            StartupStage::AcceptingConnections,
            StartupAction::AcceptConnections,
        ),
        StartupStage::AcceptingConnections => (
            StartupStage::RegisteringBridge,
            StartupAction::RegisterBridge,
        ),
        StartupStage::RegisteringBridge => (
            StartupStage::RegisteringListener,
            StartupAction::RegisterListener,
        ),
        StartupStage::RegisteringListener => (StartupStage::Running, StartupAction::Finish),
        StartupStage::Running => (StartupStage::Running, StartupAction::Finish),
    }
}

/// The bridge is started only with a target that was set, and miners are accepted
/// only after the bridge was started.
pub proof fn miners_are_accepted_after_the_target(stage: StartupStage, event: StartupEvent)
    requires
        event_due(stage, event),
    ensures
        startup_step(stage, event).1 is StartBridge ==> stage is AwaitingTarget && (event matches
            StartupEvent::Target(target) && !target_unset(target@)),
        startup_step(stage, event).1 is StartBridge <==> startup_step(stage, event).0
            is StartingBridge,
        startup_step(stage, event).1 is AcceptConnections ==> stage is StartingBridge,
        startup_step(stage, event).0 is Running ==> stage is RegisteringListener,
{
}

/// A target that was set ends the wait: the bridge is started if and only if some byte
/// of the target is not zero, and otherwise the target is read again.
pub proof fn a_set_target_ends_the_wait(target: Vec<u8>)
    requires
        target@.len() == 32,
    ensures
        event_due(StartupStage::AwaitingTarget, StartupEvent::Target(target)),
        (exists|i: int| 0 <= i < 32 && #[trigger] target@[i] != 0) ==> startup_step(
            StartupStage::AwaitingTarget,
            StartupEvent::Target(target),
        ) == (StartupStage::StartingBridge, StartupAction::StartBridge),
        (forall|i: int| 0 <= i < 32 ==> #[trigger] target@[i] == 0) ==> startup_step(
            StartupStage::AwaitingTarget,
            StartupEvent::Target(target),
        ) == (StartupStage::AwaitingTarget, StartupAction::ReadTarget),
{
}

/// Besides the target nothing holds the miners' side up: the extranonce leads to the
/// target, and from the bridge on each finished stage leads to the next, until
/// everything runs. At every stage but the last the work of the stage can end.
pub proof fn the_miners_side_comes_up()
    ensures
        event_due(StartupStage::AwaitingExtranonce, StartupEvent::Extranonce),
        startup_step(StartupStage::AwaitingExtranonce, StartupEvent::Extranonce) == (
            StartupStage::AwaitingTarget,
            StartupAction::ReadTarget,
        ),
        forall|stage: StartupStage|
            stage is StartingBridge || stage is AcceptingConnections || stage is RegisteringBridge
                || stage is RegisteringListener ==> #[trigger] event_due(stage, StartupEvent::Done),
        startup_step(StartupStage::StartingBridge, StartupEvent::Done) == (
            StartupStage::AcceptingConnections,
            StartupAction::AcceptConnections,
        ),
        startup_step(StartupStage::AcceptingConnections, StartupEvent::Done) == (
            StartupStage::RegisteringBridge,
            StartupAction::RegisterBridge,
        ),
        startup_step(StartupStage::RegisteringBridge, StartupEvent::Done) == (
            StartupStage::RegisteringListener,
            StartupAction::RegisterListener,
        ),
        startup_step(StartupStage::RegisteringListener, StartupEvent::Done) == (
            StartupStage::Running,
            StartupAction::Finish,
        ),
{
}

/// The translator is started in five steps, the upstream with one byte less than the
/// smallest extranonce; only where the upstream's task cannot be registered is it
/// given up.
pub proof fn the_translator_starts(min_extranonce_size: u16, ok: bool)
    requires
        min_extranonce_size >= 1,
    ensures
        start_step(StartStage::ConnectingPool, true, min_extranonce_size).0
            == StartStage::CreatingUpstream,
        start_step(StartStage::ConnectingPool, true, min_extranonce_size).1 matches
            StartAction::CreateUpstream { min_extranonce_size: size } && size + 1
            == min_extranonce_size,
        start_step(StartStage::CreatingUpstream, true, min_extranonce_size) == (
            StartStage::StartingUpstream,
            StartAction::StartUpstream,
        ),
        start_step(StartStage::StartingUpstream, true, min_extranonce_size) == (
            StartStage::RegisteringUpstream,
            StartAction::RegisterUpstream,
        ),
        start_step(StartStage::RegisteringUpstream, true, min_extranonce_size) == (
            StartStage::RegisteringStartup,
            StartAction::RegisterStartup,
        ),
        start_step(StartStage::RegisteringUpstream, false, min_extranonce_size) == (
            StartStage::Failed,
            StartAction::Fail,
        ),
        start_step(StartStage::RegisteringStartup, true, min_extranonce_size) == (
            StartStage::Started,
            StartAction::Finish,
        ),
        start_step(StartStage::Started, ok, min_extranonce_size) == (
            StartStage::Started,
            StartAction::Finish,
        ),
        start_step(StartStage::Failed, ok, min_extranonce_size) == (
            StartStage::Failed,
            StartAction::Fail,
        ),
{
}

} // verus!
