use ethproofs_client::action::Action;
use ethproofs_client::cliargs::CliArgs;
use ethproofs_client::input::{
    first_timestamp, folder_file, next_timestamp, process_inputs_from_folder,
    process_inputs_from_rpc, select_file, sort_files, BlockHeader, FolderFile, InputStats, RpcStep,
};
use ethproofs_client::protocol::BlockInfo;
use ethproofs_client::state::AppState;

fn state() -> AppState<u8> {
    AppState::new(CliArgs::default(), 0)
}

fn header(number: Option<u64>) -> BlockHeader {
    BlockHeader {
        number,
        hash: Some(vec![0xab, 0x01]),
        timestamp: 1_000,
        tx_count: 12,
        gas_used: 29_999_999,
    }
}

fn block(block_number: u64, hash: &str) -> BlockInfo {
    BlockInfo { block_number, timestamp: 0, block_hash: hash.to_string(), tx_count: 0, mgas: 0 }
}

fn name(s: &str) -> String {
    s.to_string()
}

#[test]
fn figures_of_input_times() {
    let mut stats = InputStats::new();
    for time in [5, 3, 10] {
        stats.record(time);
    }
    assert_eq!(stats.max_input_time, 10);
    assert_eq!(stats.min_input_time, 3);
    assert_eq!(stats.total_input_time, 18);
    assert_eq!(stats.input_count, 3);
    assert_eq!(stats.average(), 6);
}

#[test]
fn the_mean_lies_between() {
    let mut stats = InputStats::new();
    assert_eq!(stats.min_input_time, u128::MAX);
    assert_eq!(stats.max_input_time, 0);
    for time in [7, 7, 8] {
        stats.record(time);
        assert!(stats.min_input_time <= stats.average());
        assert!(stats.average() <= stats.max_input_time);
    }
}

#[test]
fn headers_without_a_number_are_skipped() {
    assert!(matches!(
        process_inputs_from_rpc(&header(None), 0, &state()),
        RpcStep::SkipUnnumbered
    ));
}

#[test]
fn blocks_between_multiples_are_skipped() {
    let mut state = state();
    state.cliargs.inputs.block_modulus = 10;
    assert!(matches!(
        process_inputs_from_rpc(&header(Some(15)), 0, &state),
        RpcStep::SkipBlock { block_number: 15 }
    ));
    assert!(matches!(
        process_inputs_from_rpc(&header(Some(20)), 0, &state),
        RpcStep::Process { .. }
    ));
}

#[test]
fn after_the_run_time_blocks_are_refused() {
    let mut state = state();
    state.run_deadline = Some(100);
    assert!(matches!(
        process_inputs_from_rpc(&header(Some(20)), 99, &state),
        RpcStep::Process { .. }
    ));
    assert!(matches!(process_inputs_from_rpc(&header(Some(20)), 100, &state), RpcStep::Exit));
    state.proving_block = Some(block(19, "x"));
    assert!(matches!(
        process_inputs_from_rpc(&header(Some(20)), 100, &state),
        RpcStep::Wait { block_number: 20 }
    ));
}

#[test]
fn headers_tell_the_block() {
    let mut state = state();
    state.cliargs.ethproofs.submit = true;
    state.cliargs.ethproofs.cluster_id = Some(3);
    match process_inputs_from_rpc(&header(Some(20)), 0, &state) {
        RpcStep::Process { block_info, queued } => {
            assert_eq!(block_info.block_number, 20);
            assert_eq!(block_info.timestamp, 1_000);
            assert_eq!(block_info.block_hash, "ab01");
            assert_eq!(block_info.tx_count, 12);
            assert_eq!(block_info.mgas, 29);
            assert!(matches!(
                queued,
                Some(Action::ReportQueued { cluster_id: 3, block_number: 20 })
            ));
        }
        other => panic!("{:?}", other),
    }
    let mut unknown = header(Some(20));
    unknown.hash = None;
    assert_eq!(unknown.hash_text(), "nohash");
}

#[test]
fn input_files_end_in_bin() {
    let all = vec![];
    assert!(select_file(&name("a.bin"), &all));
    assert!(select_file(&name("..bin"), &all));
    assert!(select_file(&name("größe.bin"), &all));
    assert!(!select_file(&name(".bin"), &all));
    assert!(!select_file(&name("a.bin2"), &all));
    assert!(!select_file(&name("abin"), &all));
    assert!(!select_file(&name("a.BIN"), &all));
    assert!(!select_file(&name("a\nb.bin"), &all));
    assert!(!select_file(&name("a.bin\n"), &all));
    assert!(!select_file(&name(""), &all));
}

#[test]
fn only_listed_files_are_taken() {
    let listed = vec![name("a.bin"), name("c.bin"), name("d.txt")];
    assert!(select_file(&name("a.bin"), &listed));
    assert!(select_file(&name("c.bin"), &listed));
    assert!(!select_file(&name("b.bin"), &listed));
    assert!(!select_file(&name("d.txt"), &listed));
}

#[test]
fn names_tell_number_and_hash() {
    let file = folder_file(&name("123_abcdef.bin"), 9);
    assert_eq!(file.block_number, 123);
    assert_eq!(file.hash, "123_ab");
    assert_eq!(file.path, 9);
    let file = folder_file(&name("block_77_x.y.bin"), 9);
    assert_eq!(file.block_number, 77);
    assert_eq!(file.hash, "block_");
    assert_eq!(folder_file(&name("none.bin"), 9).block_number, u64::MAX);
}

#[test]
fn numbers_of_blocks_come_back_from_a_folder() {
    for info in [block(0, ""), block(42, "0xfeed"), block(u64::MAX, "9_9_9_9")] {
        assert_eq!(folder_file(&info.filename(), ()).block_number, info.block_number);
        assert!(select_file(&info.filename(), &vec![]));
    }
    assert!(!select_file(&block(1, "a\nb").filename(), &vec![]));
}

#[test]
fn files_are_ordered_by_number() {
    let files: Vec<FolderFile<u32>> = [(5, 0), (u64::MAX, 1), (2, 2), (5, 3), (2, 4), (0, 5)]
        .iter()
        .map(|(block_number, path)| FolderFile {
            block_number: *block_number,
            hash: String::new(),
            path: *path,
        })
        .collect();
    let order: Vec<u32> = sort_files(files).iter().map(|f| f.path).collect();
    assert_eq!(order, vec![5, 2, 4, 0, 3, 1]);
    assert!(sort_files(Vec::<FolderFile<u32>>::new()).is_empty());
}

#[test]
fn timestamps_of_a_folder() {
    assert_eq!(first_timestamp(0, 777), 777);
    assert_eq!(first_timestamp(5, 777), 5);
    assert_eq!(next_timestamp(5, 7), 12);
    assert_eq!(next_timestamp(u64::MAX - 1, 7), u64::MAX);
}

#[test]
fn files_become_blocks() {
    let mut state = state();
    state.cliargs.folder.input_time = 250;
    let file = FolderFile { block_number: 9, hash: name("9_abcd"), path: () };
    let step = process_inputs_from_folder(&file, 4, 1_234, &state);
    assert_eq!(step.block_info.block_number, 9);
    assert_eq!(step.block_info.timestamp, 1_234);
    assert_eq!(step.block_info.block_hash, "9_abcd");
    assert_eq!(step.block_info.tx_count, 0);
    assert_eq!(step.block_info.mgas, 0);
    assert_eq!(step.input_time_ms, 250);
    assert_eq!(step.filename, "9_9_abcd.bin");
    assert!(step.queued.is_none());
    let file = FolderFile { block_number: u64::MAX, hash: name("none"), path: () };
    assert_eq!(process_inputs_from_folder(&file, 4, 0, &state).block_info.block_number, 4);
}

#[test]
fn every_block_is_taken_by_default() {
    for number in [0, 1, 99, u64::MAX] {
        assert!(matches!(
            process_inputs_from_rpc(&header(Some(number)), u128::MAX, &state()),
            RpcStep::Process { .. }
        ));
    }
}
