use ethproofs_client::action::Action;
use ethproofs_client::cliargs::{CliArgs, TelegramEvent};
use ethproofs_client::process::{
    process_input, process_input_launched, process_input_saved, store_input, InputStep,
};
use ethproofs_client::protocol::BlockInfo;
use ethproofs_client::prove::{
    generate_proof, next_proof_launched, process_proof_failure, process_proof_success,
    proof_processed, proof_returned, ProveResult,
};
use ethproofs_client::state::AppState;
use ethproofs_client::telegram::AlertType;

fn block(block_number: u64) -> BlockInfo {
    BlockInfo {
        block_number,
        timestamp: 0,
        block_hash: "abcdef".to_string(),
        tx_count: 1,
        mgas: 1,
    }
}

fn check(state: &AppState<u64>) {
    if let Some(next) = &state.next_proving_block {
        assert!(next.block_number >= state.proving_block.as_ref().unwrap().block_number);
    }
    for (number, metrics) in &state.shared_metrics {
        assert_eq!(*number, metrics.block_number);
    }
}

fn arrive(number: u64, state: &mut AppState<u64>) -> Vec<Action> {
    let step = process_input(&block(number), 1, Some(2_000), state);
    let actions = match step {
        InputStep::Skip => vec![],
        InputStep::Queue { .. } => process_input_saved(block(number), true, state),
        InputStep::Prove { .. } => {
            store_input(number, state);
            assert_eq!(generate_proof(state).stdin, Some(number));
            process_input_launched(block(number), Ok(String::new()), state)
        }
    };
    check(state);
    actions
}

fn finish(number: u64, good: bool, state: &mut AppState<u64>) -> Vec<Action> {
    let returned = proof_returned(number, 0, state);
    let mut actions = returned.actions;
    check(state);
    if let Some(next) = returned.next {
        store_input(next.block.block_number, state);
        generate_proof(state);
        actions.append(&mut next_proof_launched(&next.block, Ok(String::new()), true, state));
    }
    check(state);
    if good {
        let result = ProveResult {
            proof: Some(vec![number]),
            proving_time_ms: 1,
            proving_cycles: 2,
            job_id: None,
        };
        actions.append(&mut process_proof_success(&result, &block(number), "now", state));
    } else {
        let job = "job".to_string();
        actions.append(&mut process_proof_failure("bad", number, &job, state));
    }
    actions.append(&mut proof_processed(returned.deadline_reached, state));
    check(state);
    actions
}

fn count(actions: &[Action], wanted: fn(&Action) -> bool) -> usize {
    actions.iter().filter(|action| wanted(action)).count()
}

#[test]
fn a_run_stays_in_order() {
    let mut args = CliArgs::default();
    args.metrics.enabled = true;
    let mut state: AppState<u64> = AppState::new(args, 0);
    for number in [10, 11, 12] {
        arrive(number, &mut state);
    }
    assert_eq!(state.proving_block.as_ref().unwrap().block_number, 10);
    assert_eq!(state.next_proving_block.as_ref().unwrap().block_number, 12);
    finish(10, true, &mut state);
    assert_eq!(state.proving_block.as_ref().unwrap().block_number, 12);
    arrive(13, &mut state);
    finish(12, false, &mut state);
    finish(13, true, &mut state);
    assert!(state.proving_block.is_none());
    assert_eq!(state.proved_blocks, 2);
    assert_eq!(state.latest_block, 13);
    assert_eq!(state.shared_metrics.len(), 1);
}

#[test]
fn a_run_alerts_skipped_blocks_in_turn() {
    let mut args = CliArgs::default();
    args.telegram.alert = vec![TelegramEvent::SkippedThreshold];
    args.skipped.threshold = 2;
    let mut state: AppState<u64> = AppState::new(args, 0);
    let mut alerts = 0;
    for number in 1..=6 {
        alerts += count(&arrive(number, &mut state), |a| matches!(a, Action::SendAlert { .. }));
    }
    assert_eq!(alerts, 1);
    finish(1, true, &mut state);
    alerts += count(&arrive(7, &mut state), |a| matches!(a, Action::SendAlert { .. }));
    assert_eq!(alerts, 2);
    assert!(!state.skipped_alert());
}

#[test]
fn a_run_submits_every_proof_once() {
    let mut args = CliArgs::default();
    args.ethproofs.submit = true;
    args.ethproofs.cluster_id = Some(1);
    let mut state: AppState<u64> = AppState::new(args, 0);
    let mut submissions = 0;
    for number in 1..=4 {
        arrive(number, &mut state);
        let actions = finish(number, number != 3, &mut state);
        submissions += count(&actions, |a| matches!(a, Action::ReportProved { .. }));
        assert_eq!(count(&actions, |a| matches!(a, Action::Exit { .. })), 0);
    }
    assert_eq!(submissions, 3);
}

#[test]
fn a_run_keeps_inputs_that_are_kept() {
    let mut args = CliArgs::default();
    args.inputs.keep = true;
    let mut state: AppState<u64> = AppState::new(args, 0);
    arrive(1, &mut state);
    let actions = finish(1, true, &mut state);
    assert_eq!(count(&actions, |a| matches!(a, Action::DeleteInput { .. })), 0);
    state.cliargs.inputs.keep = false;
    arrive(2, &mut state);
    let actions = finish(2, true, &mut state);
    match actions.last() {
        Some(Action::DeleteInput { path }) => assert_eq!(path, "inputs/2_abcdef.bin"),
        other => panic!("{:?}", other),
    }
}

#[test]
fn a_run_exits_last() {
    let mut args = CliArgs::default();
    args.run_time = Some(0);
    args.exit_on_error = true;
    let mut state: AppState<u64> = AppState::new(args, 0);
    arrive(1, &mut state);
    let actions = finish(1, true, &mut state);
    assert!(matches!(actions.last(), Some(Action::Exit { code: 0 })));
    state.run_deadline = None;
    arrive(2, &mut state);
    let actions = finish(2, false, &mut state);
    assert!(matches!(actions.last(), Some(Action::Exit { code: 1 })));
}

#[test]
fn a_run_alternates_warnings_and_all_clears() {
    let mut args = CliArgs::default();
    args.telegram.alert = vec![TelegramEvent::SkippedThreshold];
    args.skipped.threshold = 2;
    let mut state: AppState<u64> = AppState::new(args, 0);
    let mut kinds = vec![];
    for (proving, queued) in
        [(1, 3), (1, 4), (1, 5), (5, 6), (5, 7), (5, 8), (5, 20), (20, 21), (20, 22), (20, 30)]
    {
        state.proving_block = Some(block(proving));
        for action in arrive(queued, &mut state) {
            if let Action::SendAlert { alert } = action {
                kinds.push(alert.alert_type);
            }
        }
    }
    assert_eq!(
        kinds,
        vec![
            AlertType::Warning,
            AlertType::Info,
            AlertType::Warning,
            AlertType::Info,
            AlertType::Warning
        ]
    );
    assert!(state.skipped_alert());
}

#[test]
fn a_run_alternates_errors_and_all_clears() {
    let mut args = CliArgs::default();
    args.telegram.alert = vec![TelegramEvent::ProofFailed];
    let mut state: AppState<u64> = AppState::new(args, 0);
    let mut kinds = vec![];
    for (number, good) in [(1, false), (2, false), (3, true), (4, true), (5, false), (6, true)] {
        let result = if good { Ok(String::new()) } else { Err("no".to_string()) };
        for action in process_input_launched(block(number), result, &mut state) {
            if let Action::SendAlert { alert } = action {
                kinds.push(alert.alert_type);
            }
        }
        state.proving_block = None;
    }
    assert_eq!(
        kinds,
        vec![AlertType::Error, AlertType::Info, AlertType::Error, AlertType::Info]
    );
}
