use ethproofs_client::cliargs::{CliArgs, HintsArgs, HintsMode, InputGen};
use ethproofs_client::state::{guest_uri, startup, AppState};

fn new_state(args: CliArgs) -> AppState<u8> {
    AppState::new(args, 1_000)
}

#[test]
fn a_new_client_has_seen_nothing() {
    let state = new_state(CliArgs::default());
    assert!(state.proving_block.is_none());
    assert!(state.next_proving_block.is_none());
    assert!(state.zisk_stdin.is_none());
    assert_eq!(state.current_job_id, "");
    assert_eq!(state.proved_blocks, 0);
    assert!(state.shared_metrics.is_empty());
    assert_eq!(state.run_deadline, None);
    assert!(!state.deadline_reached(u128::MAX));
}

#[test]
fn the_run_time_counts_from_the_start() {
    let mut args = CliArgs::default();
    args.run_time = Some(2);
    let state = new_state(args);
    assert_eq!(state.run_deadline, Some(120_000_001_000));
    assert!(!state.deadline_reached(120_000_000_999));
    assert!(state.deadline_reached(120_000_001_000));
}

#[test]
fn a_folder_has_no_run_time() {
    let mut args = CliArgs::default();
    args.run_time = Some(2);
    args.inputs.mode = InputGen::Folder;
    assert_eq!(new_state(args).run_deadline, None);
}

#[test]
fn startup_without_flags() {
    let setup = startup(&CliArgs::default());
    assert!(setup.ethproofs.is_none());
    assert!(setup.db_dsn.is_none());
    assert!(setup.csv.is_none());
    assert!(setup.hints_debug_folder.is_none());
    let prover = setup.prover.unwrap();
    assert_eq!(prover.guest, "./elf/zec-reth.elf");
    assert_eq!(prover.coordinator_url, "http://localhost:50051");
    assert!(!prover.with_hints);
}

#[test]
fn startup_with_everything() {
    let mut args = CliArgs::default();
    args.ethproofs.submit = true;
    args.ethproofs.api_url = Some("url".to_string());
    args.ethproofs.api_token = Some("key".to_string());
    args.db.enabled = true;
    args.db.dsn = Some("dsn".to_string());
    args.proof.csv = Some("out.csv".to_string());
    args.skip_proving = true;
    args.hints = Some(HintsArgs {
        mode: HintsMode::Socket,
        socket: "s".to_string(),
        debug: true,
        debug_folder: "dbg".to_string(),
    });
    let setup = startup(&args);
    let ethproofs = setup.ethproofs.unwrap();
    assert_eq!(ethproofs.api_url, "url");
    assert_eq!(ethproofs.api_token, "key");
    assert_eq!(setup.db_dsn.unwrap(), "dsn");
    let csv = setup.csv.unwrap();
    assert_eq!(csv.path, "out.csv");
    assert_eq!(csv.header, "timestamp,block_number,mgas,tx_count,steps,proving_time_ms");
    assert!(setup.prover.is_none());
    assert_eq!(setup.hints_debug_folder.unwrap(), "dbg");
    args.skip_proving = false;
    assert!(startup(&args).prover.unwrap().with_hints);
}

#[test]
fn guests_are_files() {
    assert_eq!(guest_uri("/elf/x.elf"), "file:///elf/x.elf");
}

#[test]
fn proved_blocks_are_counted_and_recorded() {
    let mut args = CliArgs::default();
    args.proof.csv = Some("out.csv".to_string());
    let mut state = new_state(args);
    let row = state.record_proved_block("2025-01-02T03:04:05.000006Z", 7, 30, 200, 1_000, 9_000);
    assert_eq!(row.unwrap(), "2025-01-02T03:04:05.000006Z,7,30,200,1000,9000");
    assert_eq!(state.proved_blocks, 1);
    state.cliargs.proof.csv = None;
    assert!(state.record_proved_block("t", 8, 1, 2, 3, 4).is_none());
    assert_eq!(state.proved_blocks, 2);
    assert_eq!(
        state.log_proved_blocks_summary(),
        "Proved 2 block(s) successfully during this run"
    );
}

#[test]
fn rows_have_the_columns_of_the_header() {
    let mut args = CliArgs::default();
    args.proof.csv = Some("out.csv".to_string());
    let header = startup(&args).csv.unwrap().header;
    let row = new_state(args).record_proved_block("now", 1, 2, 3, 4, 5).unwrap();
    assert_eq!(header.split(',').count(), row.split(',').count());
    assert_eq!(row.split(',').collect::<Vec<_>>(), vec!["now", "1", "2", "3", "4", "5"]);
}

#[test]
fn inputs_are_deleted_unless_kept() {
    let mut state = new_state(CliArgs::default());
    let name = "7_abc.bin".to_string();
    assert_eq!(state.input_file_path(&name), "inputs/7_abc.bin");
    assert_eq!(state.delete_input_file(&name), Some("inputs/7_abc.bin".to_string()));
    state.cliargs.inputs.keep = true;
    assert_eq!(state.delete_input_file(&name), None);
}

#[test]
fn fired_alerts_are_noted() {
    let mut state = new_state(CliArgs::default());
    assert!(!state.skipped_alert() && !state.failed_alert());
    state.set_skipped_alert(true);
    assert!(state.skipped_alert() && !state.failed_alert());
    state.set_failed_alert(true);
    state.set_skipped_alert(false);
    assert!(!state.skipped_alert() && state.failed_alert());
}
