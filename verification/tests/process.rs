use ethproofs_client::action::Action;
use ethproofs_client::cliargs::{CliArgs, HintsArgs, HintsMode, TelegramEvent};
use ethproofs_client::process::{
    generate_hints, input_hint_message, process_input, process_input_launched,
    process_input_saved, process_queued, store_input, HintsPlan, InputStep,
};
use ethproofs_client::protocol::BlockInfo;
use ethproofs_client::state::AppState;
use ethproofs_client::telegram::AlertType;

fn block(block_number: u64) -> BlockInfo {
    BlockInfo {
        block_number,
        timestamp: 1_000,
        block_hash: "abcdef99".to_string(),
        tx_count: 12,
        mgas: 34,
    }
}

fn state() -> AppState<u8> {
    let mut args = CliArgs::default();
    args.telegram.alert = vec![TelegramEvent::SkippedThreshold, TelegramEvent::ProofFailed];
    AppState::new(args, 0)
}

#[test]
fn queued_blocks_are_reported_if_submitted() {
    let mut state = state();
    assert!(process_queued(5, &state).is_none());
    state.cliargs.ethproofs.submit = true;
    state.cliargs.ethproofs.cluster_id = Some(3);
    assert!(matches!(
        process_queued(5, &state),
        Some(Action::ReportQueued { cluster_id: 3, block_number: 5 })
    ));
}

#[test]
fn the_first_block_is_proved() {
    let mut state = state();
    let step = process_input(&block(5), 40, Some(1_000_250), &mut state);
    assert!(matches!(step, InputStep::Prove { keep: None }));
    assert!(state.shared_metrics.is_empty());
    state.cliargs.inputs.keep = true;
    match process_input(&block(5), 40, Some(1_000_250), &mut state) {
        InputStep::Prove { keep: Some(file) } => {
            assert_eq!(file.folder, "inputs");
            assert_eq!(file.filename, "5_abcdef.bin");
        }
        other => panic!("{:?}", other),
    }
}

#[test]
fn figures_are_noted_with_metrics() {
    let mut state = state();
    state.cliargs.metrics.enabled = true;
    process_input(&block(5), 40, Some(1_000_250), &mut state);
    let noted = state.shared_metrics[&5];
    assert_eq!(noted.block_number, 5);
    assert_eq!(noted.received_time_ms, 40);
    assert_eq!(noted.time_to_input_ms, 250);
    assert_eq!(noted.mgas, 34);
    assert_eq!(noted.tx_count, 12);
    assert_eq!(noted.timestamp, 1_000);
    assert_eq!(noted.proving_time_ms, None);
    assert!(!noted.success);
    process_input(&block(6), 41, None, &mut state);
    assert_eq!(state.shared_metrics[&6].time_to_input_ms, 0);
    assert_eq!(state.shared_metrics.len(), 2);
    process_input(&block(7), 41, Some(999_750), &mut state);
    assert_eq!(state.shared_metrics[&7].time_to_input_ms, -250);
}

#[test]
fn nothing_is_proved_when_proving_is_skipped() {
    let mut state = state();
    state.cliargs.skip_proving = true;
    state.proving_block = Some(block(4));
    assert!(matches!(process_input(&block(5), 40, None, &mut state), InputStep::Skip));
}

#[test]
fn later_blocks_are_queued() {
    let mut state = state();
    state.proving_block = Some(block(5));
    match process_input(&block(6), 40, None, &mut state) {
        InputStep::Queue { file } => assert_eq!(file.filename, "6_abcdef.bin"),
        other => panic!("{:?}", other),
    }
    assert!(process_input_saved(block(6), false, &mut state).is_empty());
    assert!(state.next_proving_block.is_none());
    assert!(process_input_saved(block(6), true, &mut state).is_empty());
    assert_eq!(state.next_proving_block.as_ref().unwrap().block_number, 6);
    assert!(process_input_saved(block(8), true, &mut state).is_empty());
    assert_eq!(state.next_proving_block.as_ref().unwrap().block_number, 8);
    assert_eq!(state.proving_block.as_ref().unwrap().block_number, 5);
}

#[test]
fn skipped_blocks_are_alerted_once_and_taken_back() {
    let mut state = state();
    state.proving_block = Some(block(5));
    assert!(process_input_saved(block(10), true, &mut state).is_empty());
    let actions = process_input_saved(block(11), true, &mut state);
    match &actions[..] {
        [Action::SendAlert { alert }] => {
            assert_eq!(alert.alert_type, AlertType::Warning);
            assert_eq!(
                alert.message,
                "Skipped 5 consecutive blocks. Currently proving block 5, next queued block is 11."
            );
        }
        other => panic!("{:?}", other),
    }
    assert!(state.skipped_alert());
    assert!(process_input_saved(block(12), true, &mut state).is_empty());
    state.proving_block = Some(block(12));
    let actions = process_input_saved(block(13), true, &mut state);
    match &actions[..] {
        [Action::SendAlert { alert }] => {
            assert_eq!(alert.alert_type, AlertType::Info);
            assert_eq!(alert.message, "Resumed proving. Now proving block 12.");
        }
        other => panic!("{:?}", other),
    }
    assert!(!state.skipped_alert());
}

#[test]
fn skipped_blocks_run_the_script_and_panic() {
    let mut state = state();
    state.proving_block = Some(block(5));
    state.current_job_id = "job".to_string();
    state.cliargs.hooks.blocks_skipped = Some("hook.sh".to_string());
    state.cliargs.skipped.panic = true;
    let actions = process_input_saved(block(20), true, &mut state);
    match &actions[..] {
        [Action::RunHook { script, args }, Action::SendAlert { .. }, Action::AwaitAlert, Action::Panic { message }] =>
        {
            assert_eq!(script, "hook.sh");
            assert_eq!(args, &vec!["5".to_string(), "job".to_string()]);
            assert_eq!(
                message,
                "Skipped blocks exceeded threshold, panicking as per configuration"
            );
        }
        other => panic!("{:?}", other),
    }
    let actions = process_input_saved(block(21), true, &mut state);
    assert!(matches!(actions[..], [Action::RunHook { .. }, Action::Panic { .. }]));
}

#[test]
fn skipped_blocks_without_alerts_leave_the_flag() {
    let mut state = state();
    state.cliargs.telegram.alert = vec![];
    state.proving_block = Some(block(5));
    assert!(process_input_saved(block(20), true, &mut state).is_empty());
    assert!(!state.skipped_alert());
}

#[test]
fn a_launched_proof_is_the_current_one() {
    let mut state = state();
    let actions = process_input_launched(block(5), Ok("job".to_string()), &mut state);
    assert!(actions.is_empty());
    assert_eq!(state.proving_block.as_ref().unwrap().block_number, 5);
    assert_eq!(state.current_job_id, "job");
}

#[test]
fn failed_launches_are_alerted_once_and_taken_back() {
    let mut state = state();
    state.current_job_id = "old".to_string();
    state.cliargs.hooks.proof_failed = Some("hook.sh".to_string());
    let actions = process_input_launched(block(5), Err("no".to_string()), &mut state);
    match &actions[..] {
        [Action::RunHook { args, .. }, Action::SendAlert { alert }] => {
            assert_eq!(args, &vec!["5".to_string(), "old".to_string()]);
            assert_eq!(alert.message, "Proof generation failed for block 5, error: no");
            assert_eq!(alert.alert_type, AlertType::Error);
        }
        other => panic!("{:?}", other),
    }
    assert!(state.proving_block.is_none());
    assert!(state.failed_alert());
    let actions = process_input_launched(block(6), Err("no".to_string()), &mut state);
    assert!(matches!(actions[..], [Action::RunHook { .. }]));
    let actions = process_input_launched(block(7), Ok("new".to_string()), &mut state);
    match &actions[..] {
        [Action::SendAlert { alert }] => {
            assert_eq!(alert.message, "Resumed proving. Now proving block 7.");
            assert_eq!(alert.alert_type, AlertType::Info);
        }
        other => panic!("{:?}", other),
    }
    assert!(!state.failed_alert());
}

#[test]
fn hints_are_streamed_or_written() {
    let mut state = state();
    state.cliargs.hints = Some(HintsArgs {
        mode: HintsMode::Socket,
        socket: "/tmp/hints.sock".to_string(),
        debug: false,
        debug_folder: "dbg".to_string(),
    });
    assert!(generate_hints(5, &state).is_none());
    store_input(9, &mut state);
    assert_eq!(state.zisk_stdin, Some(9));
    match generate_hints(5, &state) {
        Some(HintsPlan::Socket { socket, debug_file: None }) => {
            assert_eq!(socket, "/tmp/hints.sock")
        }
        other => panic!("{:?}", other),
    }
    state.cliargs.hints.as_mut().unwrap().debug = true;
    match generate_hints(5, &state) {
        Some(HintsPlan::Socket { debug_file: Some(path), .. }) => {
            assert_eq!(path, "dbg/5_hints_debug.bin")
        }
        other => panic!("{:?}", other),
    }
    state.cliargs.hints.as_mut().unwrap().mode = HintsMode::File;
    match generate_hints(5, &state) {
        Some(HintsPlan::File { folder, filename }) => {
            assert_eq!(folder, "./hints");
            assert_eq!(filename, "5_hints.bin");
        }
        other => panic!("{:?}", other),
    }
}

#[test]
fn hint_log_shows_the_first_bytes() {
    assert_eq!(
        input_hint_message(&[0, 15, 16, 255]),
        "hint_input_data (input_data: [0, f, 10, ff] , input_data_len: 4"
    );
    assert_eq!(
        input_hint_message(&[]),
        "hint_input_data (input_data: [] , input_data_len: 0"
    );
    let long = vec![0xabu8; 65];
    let shown = format!("{:x?}", &long[..64]);
    assert_eq!(
        input_hint_message(&long),
        format!("hint_input_data (input_data: {}... , input_data_len: 65", shown)
    );
}

#[test]
fn the_client_panics_over_the_threshold_only() {
    let mut state = state();
    state.proving_block = Some(block(100));
    state.cliargs.skipped.threshold = 5;
    state.cliargs.skipped.panic = true;
    state.cliargs.hooks.blocks_skipped = Some("hook.sh".to_string());
    // Four blocks are skipped.
    assert!(process_input_saved(block(105), true, &mut state).is_empty());
    // As many as the threshold: an alert, and nothing more.
    match &process_input_saved(block(106), true, &mut state)[..] {
        [Action::SendAlert { alert }] => assert_eq!(
            alert.message,
            "Skipped 5 consecutive blocks. Currently proving block 100, next queued block is 106."
        ),
        other => panic!("{:?}", other),
    }
    // One more than the threshold.
    let actions = process_input_saved(block(107), true, &mut state);
    assert!(matches!(actions[..], [Action::RunHook { .. }, Action::Panic { .. }]));
    state.set_skipped_alert(false);
    let actions = process_input_saved(block(107), true, &mut state);
    assert!(matches!(
        actions[..],
        [
            Action::RunHook { .. },
            Action::SendAlert { .. },
            Action::AwaitAlert,
            Action::Panic { .. }
        ]
    ));
    state.cliargs.skipped.panic = false;
    let actions = process_input_saved(block(107), true, &mut state);
    assert!(matches!(actions[..], [Action::RunHook { .. }]));
}

#[test]
fn without_a_threshold_one_skipped_block_is_over() {
    let mut state = state();
    state.proving_block = Some(block(100));
    state.cliargs.skipped.threshold = 0;
    state.cliargs.skipped.panic = true;
    assert!(process_input_saved(block(100), true, &mut state).is_empty());
    let actions = process_input_saved(block(101), true, &mut state);
    assert!(matches!(actions[..], [Action::SendAlert { .. }]));
    let actions = process_input_saved(block(102), true, &mut state);
    assert!(matches!(actions[..], [Action::Panic { .. }]));
}
