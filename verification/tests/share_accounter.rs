use dmnd_client::mining::SubmitSharesExtended;
use dmnd_client::share_accounter::{
    start, Mining, PoolExtMessages, ShareAccounter, ShareOk, SubmitSharesSuccess,
};

fn share(job_id: u32, channel_id: u32, sequence_number: u32) -> SubmitSharesExtended {
    SubmitSharesExtended {
        channel_id,
        sequence_number,
        job_id,
        nonce: 6789,
        ntime: 1609459200,
        version: 2,
        extranonce: [0u8; 32].to_vec(),
    }
}

fn get_submit_share_extended() -> Mining<()> {
    Mining::SubmitSharesExtended(share(1, 1, 42))
}

fn acknowledge(accounter: &mut ShareAccounter, ref_job_id: u64) -> Option<SubmitSharesSuccess> {
    let ok: PoolExtMessages<()> = PoolExtMessages::ShareOk(ShareOk { ref_job_id, share_index: 2 });
    accounter.relay_down(ok)
}

#[test]
fn test_share_accounter_relay_up() {
    let mut accounter = start();
    let expected_msg = share(1, 1, 42);
    match accounter.relay_up(get_submit_share_extended()) {
        PoolExtMessages::Mining(Mining::SubmitSharesExtended(received_msg)) => {
            assert_eq!(received_msg.channel_id, expected_msg.channel_id);
            assert_eq!(received_msg.sequence_number, expected_msg.sequence_number);
            assert_eq!(received_msg.job_id, expected_msg.job_id);
            assert_eq!(received_msg.nonce, expected_msg.nonce);
            assert_eq!(received_msg.ntime, expected_msg.ntime);
            assert_eq!(received_msg.version, expected_msg.version);
            assert_eq!(received_msg.extranonce, expected_msg.extranonce);
        }
        _ => panic!("Expected Mining message"),
    }
}

#[test]
fn test_share_accounter_relay_down() {
    let mut accounter = start();
    assert_eq!(accounter.relay_down(PoolExtMessages::Mining(get_submit_share_extended())), None);

    let success_msg = acknowledge(&mut accounter, 1).unwrap();
    assert_eq!(success_msg.new_submits_accepted_count, 1);
    assert_eq!(success_msg.new_shares_sum, 1);
    assert_eq!(success_msg.channel_id, 1);
    assert_eq!(success_msg.last_sequence_number, 42);
}

#[test]
fn the_upper_half_of_the_reference_names_the_job() {
    let mut accounter = start();
    let first: Mining<()> = Mining::SubmitSharesExtended(share(7, 3, 10));
    let second: Mining<()> = Mining::SubmitSharesExtended(share(9, 4, 11));
    accounter.relay_up(first);
    accounter.relay_up(second);
    let success = acknowledge(&mut accounter, (7 << 32) | 9).unwrap();
    assert_eq!(success.channel_id, 3);
    assert_eq!(success.last_sequence_number, 10);
    assert!(!accounter.knows(7 << 32));
    assert!(!accounter.knows((7 << 32) | 9));
    assert!(accounter.knows(9 << 32));
    let success = acknowledge(&mut accounter, 9 << 32).unwrap();
    assert_eq!(success.channel_id, 4);
    assert!(!accounter.knows(9 << 32));
}

#[test]
fn a_later_share_of_a_job_replaces_the_earlier() {
    let mut accounter = start();
    let first: Mining<()> = Mining::SubmitSharesExtended(share(1, 1, 1));
    let second: Mining<()> = Mining::SubmitSharesExtended(share(1, 2, 2));
    accounter.relay_up(first);
    accounter.relay_up(second);
    let success = acknowledge(&mut accounter, 1 << 32).unwrap();
    assert_eq!(success.channel_id, 2);
    assert_eq!(success.last_sequence_number, 2);
    assert!(!accounter.knows(1 << 32));
}

#[test]
fn other_messages_are_passed_on_and_not_noted() {
    let mut accounter = start();
    match accounter.relay_up(Mining::Other("update")) {
        PoolExtMessages::Mining(Mining::Other(text)) => assert_eq!(text, "update"),
        _ => panic!("Expected the message itself"),
    }
    assert!(!accounter.knows(0));
    let other: PoolExtMessages<()> = PoolExtMessages::OtherShareAccounting;
    assert_eq!(accounter.relay_down(other), None);
}

#[test]
fn a_repeated_acknowledgement_is_unknown() {
    let mut accounter = start();
    let seven: Mining<()> = Mining::SubmitSharesExtended(share(7, 3, 9));
    let five: Mining<()> = Mining::SubmitSharesExtended(share(5, 4, 8));
    accounter.relay_up(seven);
    accounter.relay_up(five);
    assert_eq!(acknowledge(&mut accounter, 0x7_0000_0005).unwrap().channel_id, 3);
    assert!(!accounter.knows(0x7_0000_0005));
    assert!(accounter.knows(0x5_0000_0000));
    assert_eq!(acknowledge(&mut accounter, 0x5_0000_0000).unwrap().last_sequence_number, 8);
}

#[test]
fn the_lower_half_counts_only_where_the_upper_is_zero() {
    let mut accounter = start();
    let one: Mining<()> = Mining::SubmitSharesExtended(share(1, 1, 42));
    accounter.relay_up(one);
    assert!(!accounter.knows(0x9_0000_0001));
    assert!(accounter.knows(1));
    let zero: Mining<()> = Mining::SubmitSharesExtended(share(0, 2, 43));
    accounter.relay_up(zero);
    assert_eq!(acknowledge(&mut accounter, 1).unwrap().channel_id, 2);
    assert_eq!(acknowledge(&mut accounter, 1).unwrap().channel_id, 1);
    assert!(!accounter.knows(1));
}
