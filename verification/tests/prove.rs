use ethproofs_client::action::Action;
use ethproofs_client::cliargs::{CliArgs, HintsArgs, HintsMode, TelegramEvent};
use ethproofs_client::metrics::{BlockMetrics, Counter, Gauge, MetricOp};
use ethproofs_client::protocol::BlockInfo;
use ethproofs_client::prove::{
    can_publish, generate_proof, get_proof_b64, job_id_text, next_proof_launched,
    process_proof_failure, process_proof_success, proof_processed, proof_returned, proof_start_ts,
    start_failed_message, ProveResult,
};
use ethproofs_client::state::AppState;
use ethproofs_client::telegram::AlertType;

fn block(block_number: u64) -> BlockInfo {
    BlockInfo {
        block_number,
        timestamp: 1_000,
        block_hash: "abcdef99".to_string(),
        tx_count: 12,
        mgas: 34,
    }
}

fn figures(block_number: u64) -> BlockMetrics {
    BlockMetrics {
        block_number,
        received_time_ms: 1,
        time_to_input_ms: 2_000,
        mgas: 34,
        tx_count: 12,
        timestamp: 1_000,
        proving_time_ms: None,
        proving_cycles: None,
        submit_time_ms: None,
        success: false,
    }
}

fn state() -> AppState<u8> {
    AppState::new(CliArgs::default(), 0)
}

fn result() -> ProveResult {
    ProveResult {
        proof: Some(vec![1]),
        proving_time_ms: 9_500,
        proving_cycles: 77,
        job_id: Some("job".to_string()),
    }
}

#[test]
fn proofs_are_base64() {
    assert_eq!(get_proof_b64(&[1, 0, 0]).unwrap(), "AQAA");
}

#[test]
fn start_of_a_proof_is_in_utc() {
    assert_eq!(proof_start_ts(0, 0).unwrap(), "1970-01-01T00:00:00.000000Z");
    assert_eq!(
        proof_start_ts(1_700_000_000, 123_456_789).unwrap(),
        "2023-11-14T22:13:20.123456Z"
    );
    assert!(!proof_start_ts(1_700_000_000, 1).unwrap().contains(','));
    assert_eq!(proof_start_ts(i64::MAX, 0), None);
}

#[test]
fn a_request_takes_the_input() {
    let mut state = state();
    state.zisk_stdin = Some(9);
    let request = generate_proof(&mut state);
    assert_eq!(request.stdin, Some(9));
    assert_eq!(request.timeout_secs, 600);
    assert!(!request.compressed && !request.wait_for_hints);
    assert!(request.hints_socket.is_none());
    assert!(state.zisk_stdin.is_none());
}

#[test]
fn a_request_with_hints_leaves_the_input() {
    let mut state = state();
    state.zisk_stdin = Some(9);
    state.cliargs.compressed = true;
    state.cliargs.hints = Some(HintsArgs {
        mode: HintsMode::File,
        socket: "sock".to_string(),
        debug: false,
        debug_folder: "dbg".to_string(),
    });
    let request = generate_proof(&mut state);
    assert_eq!(request.stdin, None);
    assert!(request.compressed && request.wait_for_hints);
    assert_eq!(request.hints_socket.as_deref(), Some("sock"));
    assert_eq!(state.zisk_stdin, Some(9));
    state.cliargs.hints.as_mut().unwrap().mode = HintsMode::Socket;
    assert!(!generate_proof(&mut state).wait_for_hints);
}

#[test]
fn jobs_without_a_name() {
    assert_eq!(job_id_text(&None), "N/A");
    assert_eq!(job_id_text(&Some("j".to_string())), "j");
    assert_eq!(
        start_failed_message(5, "down"),
        "Failed to start proof generation for block 5: down"
    );
}

#[test]
fn the_queued_block_follows() {
    let mut state = state();
    state.proving_block = Some(block(5));
    state.next_proving_block = Some(block(7));
    let returned = proof_returned(5, 0, &mut state);
    assert!(returned.actions.is_empty());
    assert!(!returned.deadline_reached);
    let next = returned.next.unwrap();
    assert_eq!(next.block.block_number, 7);
    assert_eq!(next.input_path, "inputs/7_abcdef.bin");
    assert_eq!(state.proving_block.as_ref().unwrap().block_number, 7);
    assert!(state.next_proving_block.is_none());
}

#[test]
fn without_a_queued_block_the_end_is_signalled() {
    let mut state = state();
    state.proving_block = Some(block(5));
    state.cliargs.ethproofs.submit = true;
    state.cliargs.ethproofs.cluster_id = Some(3);
    let returned = proof_returned(5, 0, &mut state);
    assert!(returned.next.is_none());
    assert!(state.proving_block.is_none());
    assert!(matches!(
        returned.actions[..],
        [Action::ReportProving { cluster_id: 3, block_number: 5 }, Action::NotifyProofDone]
    ));
}

#[test]
fn after_the_run_time_no_block_follows() {
    let mut state = state();
    state.run_deadline = Some(100);
    state.proving_block = Some(block(5));
    state.next_proving_block = Some(block(7));
    let returned = proof_returned(5, 100, &mut state);
    assert!(returned.deadline_reached);
    assert!(returned.next.is_none());
    assert!(state.proving_block.is_none() && state.next_proving_block.is_none());
    assert!(matches!(returned.actions[..], [Action::NotifyProofDone]));
    match &proof_processed(true, &state)[..] {
        [Action::LogSummary { text }, Action::Exit { code: 0 }] => {
            assert_eq!(text, "Proved 0 block(s) successfully during this run")
        }
        other => panic!("{:?}", other),
    }
    assert!(proof_processed(false, &state).is_empty());
}

#[test]
fn the_next_proof_is_launched_or_not() {
    let mut state = state();
    state.proving_block = Some(block(7));
    state.current_job_id = "old".to_string();
    assert!(next_proof_launched(&block(7), Ok("new".to_string()), true, &mut state).is_empty());
    assert_eq!(state.current_job_id, "new");
    assert!(state.proving_block.is_some());

    state.cliargs.hooks.proof_failed = Some("hook.sh".to_string());
    state.cliargs.telegram.alert = vec![TelegramEvent::ProofFailed];
    state.fired_alerts.failed = true;
    let actions = next_proof_launched(&block(7), Err("no".to_string()), true, &mut state);
    match &actions[..] {
        [Action::RunHook { args, .. }, Action::SendAlert { alert }, Action::DeleteInput { path }] => {
            assert_eq!(args, &vec!["7".to_string(), "new".to_string()]);
            assert_eq!(alert.message, "Proof generation failed for next block 7, error: no");
            assert_eq!(path, "inputs/7_abcdef.bin");
        }
        other => panic!("{:?}", other),
    }
    assert!(state.proving_block.is_none());
    state.cliargs.inputs.keep = true;
    let actions = next_proof_launched(&block(7), Err("no".to_string()), false, &mut state);
    assert!(matches!(actions[..], [Action::SendAlert { .. }]));
}

#[test]
fn a_proof_without_options_only_frees_its_input() {
    let mut state = state();
    let actions = process_proof_success(&result(), &block(5), "now", &mut state);
    assert!(matches!(actions[..], [Action::DeleteInput { .. }]));
    assert_eq!(state.proved_blocks, 1);
}

#[test]
fn a_proof_with_every_option() {
    let mut state = state();
    let args = &mut state.cliargs;
    args.proof.csv = Some("out.csv".to_string());
    args.proof.save = true;
    args.ethproofs.submit = true;
    args.ethproofs.cluster_id = Some(3);
    args.db.enabled = true;
    args.db.hardware = Some("gpu".to_string());
    args.telegram.alert = vec![TelegramEvent::BlockProved];
    args.metrics.enabled = true;
    state.shared_metrics.insert(5, figures(5));
    state.latest_block = 2;
    assert!(can_publish(&state, 5, 9_500));
    let actions = process_proof_success(&result(), &block(5), "now", &mut state);
    match &actions[..] {
        [Action::WriteCsv { row }, Action::SaveProof { folder, filename, bytes }, Action::ReportProved {
            cluster_id,
            block_number,
            proving_time_ms,
            proving_cycles,
            proof,
            job_id,
        }, Action::InsertProof { entry }, Action::SendAlert { alert }, Action::Publish { ops }, Action::DeleteInput { path }] =>
        {
            assert_eq!(row, "now,5,34,12,77,9500");
            assert_eq!(folder, "proofs");
            assert_eq!(filename, "5_proof.bin");
            assert_eq!(bytes, &vec![1, 0, 0, 0, 0, 0, 0, 0]);
            assert_eq!(*cluster_id, 3);
            assert_eq!(*block_number, 5);
            assert_eq!(*proving_time_ms, 9_500);
            assert_eq!(*proving_cycles, 77);
            assert_eq!(proof, "AQAAAAAAAAA=");
            assert_eq!(job_id, "job");
            assert_eq!(entry.block_number, 5);
            assert_eq!(entry.proof, "AQAAAAAAAAA=");
            assert_eq!(entry.hardware, "gpu");
            assert_eq!(entry.zisk_version, "");
            assert_eq!(entry.proving_time, 9_500);
            assert_eq!(entry.steps, 77);
            assert_eq!(
                alert.message,
                "Proof generated for block 5, proving_time: 9s, cycles: 77"
            );
            assert_eq!(alert.alert_type, AlertType::Success);
            assert!(ops.iter().any(|op| matches!(
                op,
                MetricOp::SetGauge { gauge: Gauge::ProvingTimeMs, value: 9_500 }
            )));
            assert!(ops.iter().any(|op| matches!(
                op,
                MetricOp::AddTo { counter: Counter::BlocksMissing, by: 2 }
            )));
            assert_eq!(path, "inputs/5_abcdef.bin");
        }
        other => panic!("{:?}", other),
    }
    assert!(state.shared_metrics.is_empty());
    assert_eq!(state.latest_block, 5);
}

#[test]
fn a_proof_without_words_is_only_counted() {
    let mut state = state();
    state.cliargs.proof.save = true;
    state.cliargs.metrics.enabled = true;
    let mut noted = figures(5);
    noted.time_to_input_ms = i64::MAX;
    state.shared_metrics.insert(5, noted);
    let mut result = result();
    result.proof = None;
    assert!(process_proof_success(&result, &block(5), "now", &mut state).is_empty());
    assert_eq!(state.proved_blocks, 1);
}

#[test]
fn a_proof_without_figures_is_not_published() {
    let mut state = state();
    state.cliargs.metrics.enabled = true;
    state.latest_block = 2;
    let actions = process_proof_success(&result(), &block(5), "now", &mut state);
    assert!(matches!(actions[..], [Action::DeleteInput { .. }]));
    assert_eq!(state.latest_block, 2);
}

#[test]
fn times_that_do_not_add_up() {
    let mut state = state();
    let mut noted = figures(5);
    noted.time_to_input_ms = i64::MAX;
    state.shared_metrics.insert(5, noted);
    assert!(can_publish(&state, 5, 1));
    state.cliargs.metrics.enabled = true;
    assert!(!can_publish(&state, 5, 1));
    assert!(can_publish(&state, 5, 0));
    assert!(can_publish(&state, 6, 1));
}

#[test]
fn a_failed_proof() {
    let mut state = state();
    state.cliargs.hooks.proof_failed = Some("hook.sh".to_string());
    state.cliargs.telegram.alert = vec![TelegramEvent::ProofFailed];
    state.cliargs.metrics.enabled = true;
    state.shared_metrics.insert(5, figures(5));
    let actions = process_proof_failure("bad", 5, &"job".to_string(), &mut state);
    match &actions[..] {
        [Action::RunHook { script, args }, Action::SendAlert { alert }, Action::Publish { ops }] => {
            assert_eq!(script, "hook.sh");
            assert_eq!(args, &vec!["5".to_string(), "job".to_string()]);
            assert_eq!(alert.message, "Failed proof for block 5, error: bad");
            assert_eq!(alert.alert_type, AlertType::Error);
            assert!(ops.iter().any(|op| matches!(
                op,
                MetricOp::AddTo { counter: Counter::ProofFailure, by: 1 }
            )));
            assert!(ops.iter().any(|op| matches!(
                op,
                MetricOp::SetGauge { gauge: Gauge::Mgas, value: 34 }
            )));
        }
        other => panic!("{:?}", other),
    }
    assert!(state.shared_metrics.is_empty());
    assert_eq!(state.latest_block, 5);
    let actions = process_proof_failure("bad", 6, &"job".to_string(), &mut state);
    match &actions[2] {
        Action::Publish { ops } => assert!(ops.iter().any(|op| matches!(
            op,
            MetricOp::SetGauge { gauge: Gauge::Mgas, value: 0 }
        ))),
        other => panic!("{:?}", other),
    }
    assert_eq!(state.latest_block, 6);
}

#[test]
fn a_failed_proof_can_end_the_program() {
    let mut state = state();
    state.cliargs.exit_on_error = true;
    let actions = process_proof_failure("bad", 5, &"N/A".to_string(), &mut state);
    assert!(matches!(actions[..], [Action::LogSummary { .. }, Action::Exit { code: 1 }]));
    state.cliargs.telegram.alert = vec![TelegramEvent::ProofFailed];
    let actions = process_proof_failure("bad", 5, &"N/A".to_string(), &mut state);
    assert!(matches!(
        actions[..],
        [
            Action::SendAlert { .. },
            Action::AwaitAlert,
            Action::LogSummary { .. },
            Action::Exit { code: 1 }
        ]
    ));
}
