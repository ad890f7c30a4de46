use ethproofs_client::action::Action;
use ethproofs_client::cliargs::{CliArgs, TelegramEvent};
use ethproofs_client::codec::encode_compressed;
use ethproofs_client::metrics::{BlockMetrics, Counter, Gauge, MetricOp};
use ethproofs_client::protocol::BlockInfo;
use ethproofs_client::prove::next_proof_launched;
use ethproofs_client::state::AppState;
use ethproofs_client::webhook::{
    get_proof_b64, process_encoded, process_webhook, webhook_address, webhook_handler,
    webhook_received, webhook_submitted, WebhookError, WebhookPayload, WebhookStep,
};

fn block(block_number: u64) -> BlockInfo {
    BlockInfo {
        block_number,
        timestamp: 1_000,
        block_hash: "abcdef99".to_string(),
        tx_count: 12,
        mgas: 34,
    }
}

fn state() -> AppState<u8> {
    let mut state = AppState::new(CliArgs::default(), 0);
    state.proving_block = Some(block(5));
    state.current_job_id = "job".to_string();
    state
}

fn payload(success: bool) -> WebhookPayload {
    WebhookPayload {
        success,
        job_id: "job".to_string(),
        duration_ms: 9_500,
        executed_steps: Some(77),
        proof: Some(vec![1, 2, 3]),
        error: None,
    }
}

#[test]
fn results_of_the_current_job_are_taken() {
    let mut state = state();
    let found = webhook_handler(&"job".to_string(), &state).unwrap();
    assert_eq!(found.block_number, 5);
    assert!(webhook_handler(&"other".to_string(), &state).is_none());
    state.proving_block = None;
    assert!(webhook_handler(&"job".to_string(), &state).is_none());
}

#[test]
fn the_queued_block_follows_a_delivery() {
    let mut state = state();
    state.run_deadline = Some(0);
    state.next_proving_block = Some(block(6));
    let next = webhook_received(&mut state).unwrap();
    assert_eq!(next.block.block_number, 6);
    assert_eq!(next.input_path, "inputs/6_abcdef.bin");
    assert_eq!(state.proving_block.as_ref().unwrap().block_number, 6);
    assert!(webhook_received(&mut state).is_none());
    assert!(state.proving_block.is_none());
    let actions = next_proof_launched(&block(6), Err("no".to_string()), false, &mut state);
    assert!(matches!(actions[..], [Action::DeleteInput { .. }]));
}

#[test]
fn proving_time_is_kept_in_32_bits() {
    let mut payload = payload(true);
    assert_eq!(payload.proving_time_ms(), 9_500);
    assert_eq!(payload.proving_cycles(), 77);
    payload.duration_ms = 0x1_0000_0005;
    payload.executed_steps = None;
    assert_eq!(payload.proving_time_ms(), 5);
    assert_eq!(payload.proving_cycles(), 0);
}

#[test]
fn delivered_failures_are_alerted_and_published() {
    let mut state = state();
    state.cliargs.telegram.alert = vec![TelegramEvent::ProofFailed];
    state.cliargs.metrics.enabled = true;
    let mut failed = payload(false);
    match process_webhook(&block(5), &failed, &mut state) {
        WebhookStep::Done { actions } => match &actions[..] {
            [Action::SendAlert { alert }, Action::Publish { ops }] => {
                assert_eq!(
                    alert.message,
                    "Failed proof for block 5, job: job, error: 0-Unknown error"
                );
                assert!(ops.iter().any(|op| matches!(
                    op,
                    MetricOp::AddTo { counter: Counter::ProofFailure, by: 1 }
                )));
            }
            other => panic!("{:?}", other),
        },
        other => panic!("{:?}", other),
    }
    assert_eq!(state.latest_block, 5);
    failed.error = Some(WebhookError { code: "E7".to_string(), message: "lost".to_string() });
    match process_webhook(&block(5), &failed, &mut state) {
        WebhookStep::Done { actions } => match &actions[0] {
            Action::SendAlert { alert } => assert_eq!(
                alert.message,
                "Failed proof for block 5, job: job, error: E7-lost"
            ),
            other => panic!("{:?}", other),
        },
        other => panic!("{:?}", other),
    }
}

#[test]
fn delivered_proofs_are_submitted() {
    let mut state = state();
    state.cliargs.ethproofs.submit = true;
    state.cliargs.ethproofs.cluster_id = Some(3);
    match process_webhook(&block(5), &payload(true), &mut state) {
        WebhookStep::Submit { proof_text, submission: Some(submission) } => {
            assert_eq!(proof_text, encode_compressed(&[1, 2, 3]).unwrap());
            match submission {
                Action::ReportProved {
                    cluster_id: 3,
                    block_number: 5,
                    proving_time_ms: 9_500,
                    proving_cycles: 77,
                    proof,
                    job_id,
                } => {
                    assert_eq!(proof, proof_text);
                    assert_eq!(job_id, "job");
                }
                other => panic!("{:?}", other),
            }
        }
        other => panic!("{:?}", other),
    }
}

#[test]
fn delivered_proofs_without_words_are_dropped() {
    let mut state = state();
    let mut empty = payload(true);
    empty.proof = None;
    assert!(matches!(process_webhook(&block(5), &empty, &mut state), WebhookStep::Drop));
}

#[test]
fn texts_decide_what_is_done() {
    let mut state = state();
    assert!(matches!(
        process_encoded(&block(5), &payload(true), None, &mut state),
        WebhookStep::Drop
    ));
    match process_encoded(&block(5), &payload(true), Some("text".to_string()), &mut state) {
        WebhookStep::Submit { proof_text, submission: None } => assert_eq!(proof_text, "text"),
        other => panic!("{:?}", other),
    }
    assert!(matches!(
        process_encoded(&block(5), &payload(false), Some("text".to_string()), &mut state),
        WebhookStep::Done { .. }
    ));
}

#[test]
fn delivered_proofs_are_stored_and_published() {
    let mut state = state();
    state.cliargs.db.enabled = true;
    state.cliargs.db.zisk_version = Some("0.12.0".to_string());
    state.cliargs.telegram.alert = vec![TelegramEvent::BlockProved];
    state.cliargs.metrics.enabled = true;
    state.shared_metrics.insert(
        5,
        BlockMetrics {
            block_number: 5,
            received_time_ms: 1,
            time_to_input_ms: 2_000,
            mgas: 34,
            tx_count: 12,
            timestamp: 1_000,
            proving_time_ms: None,
            proving_cycles: None,
            submit_time_ms: None,
            success: false,
        },
    );
    let text = "text".to_string();
    let actions = webhook_submitted(&block(5), &payload(true), text, Some(321), &mut state);
    match &actions[..] {
        [Action::InsertProof { entry }, Action::SendAlert { alert }, Action::Publish { ops }, Action::DeleteInput { path }] =>
        {
            assert_eq!(entry.proof, "text");
            assert_eq!(entry.zisk_version, "0.12.0");
            assert_eq!(entry.proving_time, 9_500);
            assert_eq!(
                alert.message,
                "Proof generated for block 5, proving_time: 9s, cycles: 77"
            );
            assert!(ops.iter().any(|op| matches!(
                op,
                MetricOp::SetGauge { gauge: Gauge::SubmitTimeMs, value: 321 }
            )));
            assert_eq!(path, "inputs/5_abcdef.bin");
        }
        other => panic!("{:?}", other),
    }
    assert!(state.shared_metrics.is_empty());
}

#[test]
fn delivered_proofs_are_compressed() {
    let text = get_proof_b64(&[7; 100]).unwrap();
    assert_eq!(text, encode_compressed(&[7; 100]).unwrap());
    assert!(text.len() < 100);
}

#[test]
fn webhooks_listen_locally() {
    assert_eq!(webhook_address(8051), "127.0.0.1:8051");
}
