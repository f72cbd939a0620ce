use dmnd_client::jd_client::job_declarator::{
    allocate_tokens, JobDeclarator, PrevHashStep, TokenStep, UpstreamAction, UpstreamReply,
};
use dmnd_client::jd_client::messages::{
    AllocateMiningJobTokenSuccess, CustomJob, NewTemplate, SetNewPrevHash,
};
use dmnd_client::mining::SubmitSharesExtended;

fn from_hex(text: &str) -> Vec<u8> {
    (0..text.len() / 2).map(|i| u8::from_str_radix(&text[2 * i..2 * i + 2], 16).unwrap()).collect()
}

fn genesis_coinbase() -> Vec<u8> {
    from_hex(
        "01000000010000000000000000000000000000000000000000000000000000000000000000ffffffff4d04ffff001d\
         0104455468652054696d65732030332f4a616e2f32303039204368616e63656c6c6f72206f6e206272696e6b206f66\
         207365636f6e64206261696c6f757420666f722062616e6b73ffffffff0100f2052a01000000434104678afdb0fe55\
         48271967f1a67130b7105cd6a828e03909a67962e0ea1f61deb649f6bc3f4cef38c4f35504e51ec112de5c384df7ba\
         0b8d578a4c702b6bf11d5fac00000000",
    )
}

fn setup_jd() -> JobDeclarator {
    let (jd, requests) = JobDeclarator::new(8);
    assert_eq!(requests.len(), 2);
    jd
}

fn create_template() -> NewTemplate {
    NewTemplate {
        version: 1,
        future_template: false,
        template_id: 1,
        coinbase_tx_version: 2,
        coinbase_prefix: vec![],
        coinbase_tx_input_sequence: 0,
        coinbase_tx_value_remaining: 500,
        coinbase_tx_outputs: vec![],
        coinbase_tx_locktime: 0,
        merkle_path: vec![],
        coinbase_tx_outputs_count: 1,
    }
}

fn future_template(template_id: u64) -> NewTemplate {
    let mut template = create_template();
    template.future_template = true;
    template.template_id = template_id;
    template.coinbase_tx_outputs = vec![7, 8];
    template.merkle_path = vec![vec![1; 32]];
    template
}

fn get_new_prev_hash(template_id: u64) -> SetNewPrevHash {
    SetNewPrevHash {
        prev_hash: vec![3; 32],
        n_bits: 9,
        template_id,
        header_timestamp: 989898,
        target: vec![0; 32],
    }
}

fn token(first: u8) -> AllocateMiningJobTokenSuccess {
    AllocateMiningJobTokenSuccess {
        request_id: 0,
        mining_job_token: vec![first],
        coinbase_output_max_additional_size: 100,
        coinbase_output: vec![5, 6],
        async_mining_allowed: true,
    }
}

fn success(request_id: u32, new_token: Vec<u8>) -> UpstreamReply<&'static str> {
    UpstreamReply::DeclareMiningJobSuccess { request_id, new_mining_job_token: new_token }
}

fn custom_job(action: UpstreamAction<&'static str>) -> CustomJob {
    match action {
        UpstreamAction::SetCustomJob(job) => job,
        other => panic!("expected a custom job, got {:?}", other),
    }
}

#[test]
fn test_jd_client_get_last_token() {
    let mut jd = setup_jd();
    jd.allocated_tokens.push(token(1));
    jd.allocated_tokens.push(token(2));
    let last_token = match jd.get_last_token(false) {
        TokenStep::Take(token, requests) => {
            assert!(requests.is_empty());
            token
        }
        other => panic!("expected a token, got {:?}", other),
    };
    assert_ne!(last_token.mining_job_token.len(), 0);
    assert_eq!(last_token.mining_job_token, vec![2]);
    assert_eq!(jd.allocated_tokens.len(), 1);
}

#[test]
fn the_only_token_is_replaced() {
    let mut jd = setup_jd();
    jd.allocated_tokens.push(token(9));
    match jd.get_last_token(true) {
        TokenStep::Take(token, requests) => {
            assert_eq!(token.mining_job_token, vec![9]);
            assert_eq!(requests.len(), 1);
            assert_eq!(requests[0].request_id, 0);
            assert_eq!(requests[0].user_identifier, "todo");
        }
        other => panic!("expected a token, got {:?}", other),
    }
    assert!(jd.allocated_tokens.is_empty());
}

#[test]
fn without_tokens_two_are_requested_once() {
    let mut jd = setup_jd();
    match jd.get_last_token(false) {
        TokenStep::Allocate(requests) => assert_eq!(requests.len(), 2),
        other => panic!("expected requests, got {:?}", other),
    }
    assert!(matches!(jd.get_last_token(true), TokenStep::Wait));
    let requests = allocate_tokens(3);
    assert_eq!(requests.iter().map(|r| r.request_id).collect::<Vec<_>>(), vec![0, 1, 2]);
    assert!(allocate_tokens(0).is_empty());
}

#[test]
fn test_jd_client_on_new_template() {
    let mut jd = setup_jd();
    let last_token = token(4);
    let coinbase_pool_output = last_token.coinbase_output.to_vec();

    let declared = jd
        .on_new_template(
            create_template(),
            last_token.mining_job_token.to_vec(),
            vec![],
            vec![],
            coinbase_pool_output.clone(),
        )
        .unwrap();

    let updated_declare_job = jd.last_declare_mining_jobs_sent.get(&1).unwrap();
    assert_eq!(updated_declare_job.template.version, create_template().version);
    assert_eq!(updated_declare_job.coinbase_pool_output, coinbase_pool_output);
    assert_eq!(declared.request_id, 1);
    assert_eq!(declared.mining_job_token, vec![4]);
    assert_eq!(declared.tx_short_hash_nonce, 0);
    assert!(declared.tx_short_hash_list.is_empty());
    assert_eq!(
        declared.tx_hash_list_hash,
        from_hex("e3b0c44298fc1c149afbf4c8996fb92427ae41e4649b934ca495991b7852b855")
    );
}

#[test]
fn transactions_are_hashed_into_the_declaration() {
    let mut jd = setup_jd();
    jd.coinbase_tx_prefix = vec![1];
    jd.coinbase_tx_suffix = vec![2];
    let declared = jd
        .on_new_template(create_template(), vec![], vec![genesis_coinbase()], vec![3], vec![])
        .unwrap();
    assert_eq!(declared.tx_short_hash_list, vec![vec![167, 74, 112, 205, 243, 132]]);
    assert_eq!(
        declared.tx_hash_list_hash,
        from_hex("337e2a4de220e4518f2a8a4bd8bc2c82b0b92cea3bb2ab9fceda68e1738e0b34")
    );
    assert_eq!(declared.coinbase_prefix, vec![1]);
    assert_eq!(declared.coinbase_suffix, vec![2]);
    assert_eq!(declared.excess_data, vec![3]);
    let remembered = jd.get_last_declare_job_sent(1);
    assert_eq!(remembered.tx_list, vec![genesis_coinbase()]);
    assert_eq!(remembered.declare_job.request_id, 1);
}

#[test]
fn a_broken_transaction_declares_nothing() {
    let mut jd = setup_jd();
    let mut cut = genesis_coinbase();
    cut.pop();
    let list = vec![genesis_coinbase(), cut];
    assert!(jd.on_new_template(create_template(), vec![], list, vec![], vec![]).is_none());
    assert_eq!(jd.req_ids, 0);
    assert!(jd.last_declare_mining_jobs_sent.is_empty());
}

#[test]
fn at_most_ten_jobs_are_remembered_and_the_oldest_goes() {
    let mut jd = setup_jd();
    for _ in 0..12 {
        jd.on_new_template(create_template(), vec![], vec![], vec![], vec![]).unwrap();
    }
    let mut ids: Vec<u32> = jd.last_declare_mining_jobs_sent.keys().copied().collect();
    ids.sort();
    assert_eq!(ids, (3..=12).collect::<Vec<u32>>());
    assert!(!jd.can_accept(2));
}

#[test]
fn a_valid_job_is_set_at_once() {
    let mut jd = setup_jd();
    let mut template = create_template();
    template.coinbase_tx_outputs = vec![9, 9];
    template.merkle_path = vec![vec![5; 32]];
    jd.on_new_template(template, vec![1], vec![], vec![], vec![8]).unwrap();
    assert!(!jd.can_accept(1));
    jd.on_set_new_prev_hash(&get_new_prev_hash(1));
    assert!(jd.can_accept(1));
    let job = custom_job(jd.on_upstream_message(success(1, vec![42])));
    assert_eq!(job.signed_token, vec![42]);
    assert_eq!(job.declare_job.mining_job_token, vec![1]);
    assert_eq!(job.coinbase_tx_outputs, vec![8, 9, 9]);
    assert_eq!(job.merkle_path, vec![vec![5; 32]]);
    assert_eq!(job.set_new_prev_hash.prev_hash, vec![3; 32]);
    assert_eq!(job.coinbase_tx_version, 2);
    assert_eq!(job.coinbase_tx_value_remaining, 500);
    assert_eq!(job.template_id, 1);
    assert!(!jd.can_accept(1));
    assert!(jd.future_jobs.is_empty());
}

#[test]
fn other_replies_leave_the_jobs_alone() {
    let mut jd = setup_jd();
    jd.on_new_template(future_template(1), vec![1], vec![], vec![], vec![]).unwrap();
    let refused: UpstreamReply<&str> = UpstreamReply::DeclareMiningJobError { request_id: 1 };
    assert!(matches!(
        jd.on_upstream_message(refused),
        UpstreamAction::ReportUnverified { request_id: 1 }
    ));
    let handled: UpstreamReply<&str> = UpstreamReply::Handled;
    assert!(matches!(jd.on_upstream_message(handled), UpstreamAction::Idle));
    assert!(matches!(
        jd.on_upstream_message(UpstreamReply::Respond("answer")),
        UpstreamAction::Send("answer")
    ));
    assert!(jd.can_accept(1));
}

#[test]
fn a_prev_hash_sets_the_accepted_future_job() {
    let mut jd = setup_jd();
    jd.on_new_template(future_template(1), vec![1], vec![], vec![], vec![6]).unwrap();
    assert!(matches!(jd.on_upstream_message(success(1, vec![77])), UpstreamAction::Idle));
    assert!(jd.future_jobs.contains_key(&1));

    jd.on_set_new_prev_hash(&get_new_prev_hash(1));
    let job = match jd.resolve_new_prev_hash(&get_new_prev_hash(1)) {
        PrevHashStep::Ready(job) => job,
        other => panic!("expected the job, got {:?}", other),
    };
    assert_eq!(job.signed_token, vec![77]);
    assert_eq!(job.declare_job.mining_job_token, vec![77]);
    assert_eq!(job.coinbase_tx_outputs, vec![6, 7, 8]);

    assert_eq!(jd.set_new_prev_hash_counter, 0);
    assert!(jd.future_jobs.is_empty(), "Expected future_jobs to be cleared");
}

#[test]
fn a_prev_hash_waits_for_its_job() {
    let mut jd = setup_jd();
    jd.on_set_new_prev_hash(&get_new_prev_hash(2));
    assert!(matches!(jd.resolve_new_prev_hash(&get_new_prev_hash(2)), PrevHashStep::Waiting));
    assert_eq!(jd.set_new_prev_hash_counter, 1);
    jd.on_new_template(future_template(1), vec![], vec![], vec![], vec![]).unwrap();
    jd.on_new_template(future_template(2), vec![], vec![], vec![], vec![]).unwrap();
    jd.on_upstream_message(success(1, vec![1]));
    assert!(matches!(jd.resolve_new_prev_hash(&get_new_prev_hash(2)), PrevHashStep::Waiting));
    jd.on_upstream_message(success(2, vec![2]));
    assert!(matches!(jd.resolve_new_prev_hash(&get_new_prev_hash(2)), PrevHashStep::Ready(_)));
    assert!(jd.future_jobs.is_empty());
}

#[test]
fn a_newer_prev_hash_supersedes_the_waiting_one() {
    let mut jd = setup_jd();
    jd.on_set_new_prev_hash(&get_new_prev_hash(1));
    jd.on_set_new_prev_hash(&get_new_prev_hash(2));
    assert!(matches!(jd.resolve_new_prev_hash(&get_new_prev_hash(2)), PrevHashStep::Waiting));
    assert!(matches!(jd.resolve_new_prev_hash(&get_new_prev_hash(1)), PrevHashStep::Superseded));
    assert_eq!(jd.set_new_prev_hash_counter, 1);
}

#[test]
fn test_jd_client_jd_on_solution() {
    let mut jd = setup_jd();
    jd.last_set_new_prev_hash = Some(get_new_prev_hash(1));
    let solution = SubmitSharesExtended {
        extranonce: vec![1, 2, 3],
        ntime: 0,
        nonce: 0,
        version: 0,
        channel_id: 1,
        sequence_number: 0,
        job_id: 1,
    };
    let submit_solution = jd.on_solution(solution);
    assert_eq!(submit_solution.extranonce, vec![1, 2, 3], "Extranonce mismatch");
    assert_eq!(submit_solution.ntime, 0, "Ntime mismatch");
    assert_eq!(submit_solution.nonce, 0, "Nonce mismatch");
    assert_eq!(submit_solution.version, 0, "Version mismatch");
    assert_eq!(submit_solution.prev_hash, vec![3; 32]);
    assert_eq!(submit_solution.nbits, 9);
}

#[test]
fn the_newest_declaration_of_a_template_is_kept() {
    let mut jd = setup_jd();
    jd.on_new_template(future_template(4), vec![1], vec![], vec![], vec![]).unwrap();
    jd.on_new_template(future_template(4), vec![2], vec![], vec![], vec![]).unwrap();
    jd.on_upstream_message(success(1, vec![10]));
    jd.on_upstream_message(success(2, vec![20]));
    assert_eq!(jd.future_jobs.len(), 1);
    assert_eq!(jd.future_jobs.get(&4).unwrap().job.mining_job_token, vec![20]);
}
