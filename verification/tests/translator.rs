use dmnd_client::translator::downstream::accept_connection::{
    start_accept_connection, task_registered, AcceptAction, AcceptEvent, AcceptStage, OpenOutcome,
    OpenedChannel,
};
use dmnd_client::translator::downstream::send_to_downstream::{
    start_send_to_downstream, SendAction, SendEvent,
};
use dmnd_client::translator::error::Error;
use dmnd_client::translator::utils::{
    allow_submit_share, check_share_rate_limit, checked_validate_share, meets_target,
    rolled_version, validate_share, Notify, ShareLimiter, Submit,
};
use dmnd_client::translator::{
    start, startup, StartAction, StartStage, StartupAction, StartupEvent, StartupStage,
};

const SECOND: u64 = 1_000_000_000;

fn from_hex(text: &str) -> Vec<u8> {
    (0..text.len() / 2).map(|i| u8::from_str_radix(&text[2 * i..2 * i + 2], 16).unwrap()).collect()
}

fn target(text: &str) -> [u8; 32] {
    from_hex(text).try_into().unwrap()
}

fn genesis_job() -> Notify {
    Notify {
        job_id: "4f".to_string(),
        prev_hash: vec![0; 32],
        coin_base1: from_hex(
            "01000000010000000000000000000000000000000000000000000000000000000000000000ffffffff4d",
        ),
        coin_base2: from_hex(
            "455468652054696d65732030332f4a616e2f32303039204368616e63656c6c6f72206f6e206272696e6b20\
             6f66207365636f6e64206261696c6f757420666f722062616e6b73ffffffff0100f2052a01000000434104\
             678afdb0fe5548271967f1a67130b7105cd6a828e03909a67962e0ea1f61deb649f6bc3f4cef38c4f35504\
             e51ec112de5c384df7ba0b8d578a4c702b6bf11d5fac00000000",
        ),
        merkle_branch: vec![],
        version: 1,
        bits: 0x1d00ffff,
    }
}

fn genesis_share() -> Submit {
    Submit {
        job_id: "4f".to_string(),
        extra_nonce2: from_hex("1d0104"),
        time: 1231006505,
        nonce: 2083236893,
        version_bits: None,
    }
}

fn extranonce1() -> Vec<u8> {
    from_hex("04ffff00")
}

const GENESIS_HASH: &str = "6fe28c0ab6f1b372c1a6a246ae63f74f931e8365e15a089c68d6190000000000";

#[test]
fn a_share_is_valid_up_to_its_target() {
    let check = |t: &str| {
        validate_share(&genesis_share(), &genesis_job(), target(t), &extranonce1(), None)
    };
    assert!(check(GENESIS_HASH));
    assert!(check("00000000000000000000000000000000000000000000000000001a0000000000"));
    assert!(!check("6ee28c0ab6f1b372c1a6a246ae63f74f931e8365e15a089c68d6190000000000"));
    assert!(!check("ffffffffffffffffffffffffffffffffffffffffffffffffffff180000000000"));
    assert!(!check("0000000000000000000000000000000000000000000000000000000000000000"));
}

#[test]
fn the_rolled_version_and_the_merkle_branch_enter_the_hash() {
    let mut share = genesis_share();
    share.version_bits = Some(0x20004000);
    let rolled = "79c516240c41d85629f713ea193ebe7817cd1b362bd195bf6f1bd983b59f8edd";
    let below = "78c516240c41d85629f713ea193ebe7817cd1b362bd195bf6f1bd983b59f8edd";
    assert!(validate_share(&share, &genesis_job(), target(rolled), &extranonce1(), None));
    assert!(!validate_share(&share, &genesis_job(), target(below), &extranonce1(), None));
    assert!(validate_share(&share, &genesis_job(), target(GENESIS_HASH), &extranonce1(), Some(0)));

    let mut job = genesis_job();
    job.merkle_branch = vec![vec![0x11; 32]];
    let branched = "0ddc7907a765f7897c073af953b7ef614c7970586c71525e2e8944d19de3105d";
    let below = "0cdc7907a765f7897c073af953b7ef614c7970586c71525e2e8944d19de3105d";
    assert!(validate_share(&genesis_share(), &job, target(branched), &extranonce1(), None));
    assert!(!validate_share(&genesis_share(), &job, target(below), &extranonce1(), None));
}

#[test]
fn a_share_for_another_job_is_rejected() {
    let mut share = genesis_share();
    share.job_id = "50".to_string();
    assert!(!validate_share(&share, &genesis_job(), [0xff; 32], &extranonce1(), None));
    let mut job = genesis_job();
    job.prev_hash = vec![];
    assert_eq!(
        checked_validate_share(&share, &job, [0xff; 32], &extranonce1(), None),
        Some(false)
    );
}

#[test]
fn shares_without_a_coinbase_are_not_judged() {
    let share = genesis_share();
    let job = genesis_job();
    assert_eq!(checked_validate_share(&share, &job, [0xff; 32], &extranonce1(), None), Some(true));
    assert_eq!(checked_validate_share(&share, &job, [0; 32], &extranonce1(), None), Some(false));
    assert_eq!(checked_validate_share(&share, &job, [0xff; 32], &vec![], None), None);
    let mut short = genesis_job();
    short.prev_hash = vec![0; 31];
    assert_eq!(checked_validate_share(&share, &short, [0xff; 32], &extranonce1(), None), None);
}

#[test]
fn versions_are_rolled_within_the_mask() {
    assert_eq!(rolled_version(0x20000000, None, None), 0x20000000);
    assert_eq!(rolled_version(0x20000001, Some(0xffffffff), None), 0x3fffe001);
    assert_eq!(rolled_version(0x20000001, Some(0xffffffff), Some(0x2000)), 0x20002001);
    assert_eq!(rolled_version(0x3fffe000, Some(0), Some(0xffffffff)), 0);
}

#[test]
fn hashes_are_compared_from_their_most_significant_byte() {
    let mut hash = [0u8; 32];
    hash[0] = 1;
    let mut target = [0xffu8; 32];
    target[31] = 0;
    assert!(!meets_target(hash, target));
    target[31] = 1;
    assert!(meets_target(hash, target));
    assert!(meets_target([0; 32], [0; 32]));
}

#[test]
fn seventy_shares_a_minute_reach_the_limit() {
    let mut limiter = ShareLimiter::new();
    for i in 0..69 {
        assert_eq!(allow_submit_share(&mut limiter, i * SECOND), Ok(true));
    }
    assert!(check_share_rate_limit(&mut limiter, 59 * SECOND));
    assert!(!limiter.is_rate_limited);
    assert_eq!(allow_submit_share(&mut limiter, 59 * SECOND), Ok(true));
    assert!(!check_share_rate_limit(&mut limiter, 59 * SECOND));
    assert!(limiter.is_rate_limited);
    assert_eq!(allow_submit_share(&mut limiter, 59 * SECOND), Ok(false));
    assert_eq!(limiter.timestamps.as_ref().unwrap().len(), 70);
    assert!(!check_share_rate_limit(&mut limiter, 60 * SECOND - 1));
    assert!(limiter.is_rate_limited);
    assert!(check_share_rate_limit(&mut limiter, 60 * SECOND));
    assert!(!limiter.is_rate_limited);
    assert_eq!(limiter.timestamps.as_ref().unwrap().len(), 69);
    assert_eq!(allow_submit_share(&mut limiter, 60 * SECOND), Ok(true));
}

#[test]
fn without_a_queue_there_is_no_limit_and_no_share() {
    let mut limiter = ShareLimiter::new();
    limiter.timestamps = None;
    limiter.is_rate_limited = true;
    assert_eq!(allow_submit_share(&mut limiter, 0), Ok(false));
    assert!(check_share_rate_limit(&mut limiter, 0));
    assert!(!limiter.is_rate_limited);
    assert_eq!(
        allow_submit_share(&mut limiter, 0),
        Err(Error::TranslatorDiffConfigMutexPoisoned)
    );
}

#[test]
fn a_miner_is_set_up_on_an_opened_channel() {
    let (stage, action): (AcceptStage, AcceptAction<&str>) = start_accept_connection(
        AcceptStage::AwaitingDownstream,
        AcceptEvent::Downstream(Some("127.0.0.1".to_string())),
    );
    assert!(matches!(action, AcceptAction::AwaitBridge));
    let (stage, action): (AcceptStage, AcceptAction<&str>) =
        start_accept_connection(stage, AcceptEvent::BridgeReady { ok: true });
    assert!(matches!(action, AcceptAction::OpenChannel));
    let channel = OpenedChannel {
        channel_id: 7,
        extranonce: vec![1, 2],
        last_notify: Some("job"),
        extranonce2_len: 8,
    };
    let (stage, action) =
        start_accept_connection(stage, AcceptEvent::Opened(OpenOutcome::Opened(channel)));
    match action {
        AcceptAction::NewDownstream { channel, extranonce2_len, address } => {
            assert_eq!(channel.channel_id, 7);
            assert_eq!(channel.extranonce, vec![1, 2]);
            assert_eq!(channel.last_notify, Some("job"));
            assert_eq!(extranonce2_len, 8);
            assert_eq!(address, "127.0.0.1");
        }
        other => panic!("expected a miner to be set up, got {:?}", other),
    }
    let (stage, action): (AcceptStage, AcceptAction<&str>) =
        start_accept_connection(stage, AcceptEvent::SetUp);
    assert!(matches!(stage, AcceptStage::AwaitingDownstream));
    assert!(matches!(action, AcceptAction::AwaitDownstream));
}

#[test]
fn accepting_stops_when_something_fails() {
    let opening = || AcceptStage::Opening { address: "a".to_string() };
    let stop = |stage, event: AcceptEvent<&'static str>| start_accept_connection(stage, event).1;
    assert!(matches!(
        stop(AcceptStage::AwaitingDownstream, AcceptEvent::Downstream(None)),
        AcceptAction::Stop
    ));
    assert!(matches!(
        stop(
            AcceptStage::AwaitingBridge { address: "a".to_string() },
            AcceptEvent::BridgeReady { ok: false }
        ),
        AcceptAction::Stop
    ));
    assert!(matches!(
        stop(opening(), AcceptEvent::Opened(OpenOutcome::BridgePoisoned)),
        AcceptAction::Stop
    ));
    assert!(matches!(
        stop(opening(), AcceptEvent::Opened(OpenOutcome::Refused)),
        AcceptAction::MarkDownAndStop
    ));
    assert_eq!(task_registered(true), Ok(()));
    assert_eq!(task_registered(false), Err(Error::TranslatorTaskManagerFailed));
}

#[test]
fn messages_become_lines() {
    match start_send_to_downstream(SendEvent::Message(Some(Ok("{\"id\":1}".to_string())))) {
        SendAction::Send(line) => assert_eq!(line, "{\"id\":1}\n"),
        other => panic!("expected a line, got {:?}", other),
    }
    assert!(matches!(
        start_send_to_downstream(SendEvent::Message(Some(Err(())))),
        SendAction::Stop
    ));
    assert!(matches!(start_send_to_downstream(SendEvent::Message(None)), SendAction::Stop));
    assert!(matches!(
        start_send_to_downstream(SendEvent::Sent { ok: true }),
        SendAction::AwaitMessage
    ));
    assert!(matches!(start_send_to_downstream(SendEvent::Sent { ok: false }), SendAction::Stop));
}

#[test]
fn the_translator_comes_up_in_order() {
    let (stage, action) = start(StartStage::ConnectingPool, true, 8);
    assert_eq!(action, StartAction::CreateUpstream { min_extranonce_size: 7 });
    let (stage, action) = start(stage, true, 8);
    assert_eq!(action, StartAction::StartUpstream);
    let (stage, action) = start(stage, true, 8);
    assert_eq!(action, StartAction::RegisterUpstream);
    assert_eq!(start(stage, false, 8), (StartStage::Failed, StartAction::Fail));
    let (stage, action) = start(stage, true, 8);
    assert_eq!(action, StartAction::RegisterStartup);
    assert_eq!(start(stage, true, 8), (StartStage::Started, StartAction::Finish));
}

#[test]
fn the_bridge_waits_for_a_target() {
    let (stage, action) = startup(StartupStage::AwaitingExtranonce, StartupEvent::Extranonce);
    assert_eq!(action, StartupAction::ReadTarget);
    let (stage, action) = startup(stage, StartupEvent::Target(vec![0; 32]));
    assert_eq!(stage, StartupStage::AwaitingTarget);
    assert_eq!(action, StartupAction::ReadTarget);
    let mut set = vec![0; 32];
    set[31] = 1;
    let (stage, action) = startup(stage, StartupEvent::Target(set));
    assert_eq!(action, StartupAction::StartBridge);
    let (stage, action) = startup(stage, StartupEvent::Done);
    assert_eq!(action, StartupAction::AcceptConnections);
    let (stage, action) = startup(stage, StartupEvent::Done);
    assert_eq!(action, StartupAction::RegisterBridge);
    let (stage, action) = startup(stage, StartupEvent::Done);
    assert_eq!(action, StartupAction::RegisterListener);
    let (stage, action) = startup(stage, StartupEvent::Done);
    assert_eq!(stage, StartupStage::Running);
    assert_eq!(action, StartupAction::Finish);
}
