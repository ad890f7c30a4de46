//! What happens to a block that arrives: it is announced, measured, and
//! either proved at once or queued behind the block being proved.

use vstd::prelude::*;
use vstd::string::*;

use crate::action::{add_action, add_alert, add_hook, Action};
#[allow(unused_imports)]
use crate::action::{contents, with_alert, with_hook, ActionView};
use crate::cliargs::HintsMode;
#[allow(unused_imports)]
use crate::cliargs::TelegramEvent;
use crate::metrics::BlockMetrics;
use crate::protocol::BlockInfo;
#[allow(unused_imports)]
use crate::protocol::BlockInfoView;
use crate::state::AppState;
#[allow(unused_imports)]
use crate::state::{AppStateView, FiredAlerts};
use crate::telegram::{
    send_proof_failed_alert, send_proof_resumed_alert, send_skipped_resumed_alert,
    send_skipped_threshold_alert,
};
#[allow(unused_imports)]
use crate::telegram::{alert_for, resumed_message, skipped_message, AlertType};
#[allow(unused_imports)]
use crate::text::{decimal, hex_digit, law_digits_in_order};
use crate::text::{decimal_string, hex_char, push_decimal};

verus! {

broadcast use vstd::std_specs::hash::group_hash_axioms;

/// Announces to EthProofs, if proofs are submitted, that a block is queued.
pub fn process_queued<S>(block_number: u64, app_state: &AppState<S>) -> (r: Option<Action>)
    requires
        app_state.cliargs.can_report(),
    ensures
        match r {
            Some(action) => app_state.cliargs.ethproofs.submit && action@
                == (ActionView::ReportQueued {
                cluster_id: app_state.cliargs.ethproofs.cluster_id->0,
                block_number,
            }),
            None => !app_state.cliargs.ethproofs.submit,
        },
{
    if app_state.cliargs.ethproofs.submit {
        match app_state.cliargs.ethproofs.cluster_id {
            Some(cluster_id) => Some(Action::ReportQueued { cluster_id, block_number }),
            None => None,
        }
    } else {
        None
    }
}

/// The time in milliseconds from a block's timestamp to now, negative if the
/// timestamp lies ahead; zero if the time of day is not known.
pub open spec fn time_to_input(block: BlockInfoView, now_ms: Option<u128>) -> int {
    match now_ms {
        Some(now) => now - block.timestamp * 1000,
        None => 0,
    }
}

/// The figures of a block whose input has arrived.
pub open spec fn input_metrics(
    block: BlockInfoView,
    input_time_ms: u128,
    now_ms: Option<u128>,
) -> BlockMetrics {
    BlockMetrics {
        block_number: block.block_number,
        received_time_ms: input_time_ms as i64,
        time_to_input_ms: time_to_input(block, now_ms) as i64,
        mgas: block.mgas,
        tx_count: block.tx_count as u64,
        timestamp: block.timestamp as i64,
        proving_time_ms: None,
        proving_cycles: None,
        submit_time_ms: None,
        success: false,
    }
}

/// The state once the input of a block has arrived: its figures are noted if
/// metrics are enabled.
pub open spec fn input_noted<S>(
    s: AppStateView<S>,
    block: BlockInfoView,
    input_time_ms: u128,
    now_ms: Option<u128>,
) -> AppStateView<S> {
    if s.cliargs.metrics.enabled {
        AppStateView {
            shared_metrics: s.shared_metrics.insert(
                block.block_number,
                input_metrics(block, input_time_ms, now_ms),
            ),
            ..s
        }
    } else {
        s
    }
}

/// An input file in a folder.
#[derive(Debug)]
pub struct InputFile {
    pub folder: String,
    pub filename: String,
}

/// What is done with an input.
#[derive(Debug)]
pub enum InputStep {
    /// Proving is switched off.
    Skip,
    /// A block is being proved: save the input, then queue this block.
    Queue { file: InputFile },
    /// Prove the block, after saving its input if inputs are kept.
    Prove { keep: Option<InputFile> },
}

/// Notes the figures of a block whose input has arrived, and decides whether it
/// is proved now, queued, or dropped. `input_time_ms` is the time since the
/// block was announced, `now_ms` the time of day since 1970.
pub fn process_input<S>(
    block_info: &BlockInfo,
    input_time_ms: u128,
    now_ms: Option<u128>,
    app_state: &mut AppState<S>,
) -> (r: InputStep)
    ensures
        final(app_state)@ == input_noted(old(app_state)@, block_info@, input_time_ms, now_ms),
        match r {
            InputStep::Skip => old(app_state)@.cliargs.skip_proving,
            InputStep::Queue { file } => {
                &&& !old(app_state)@.cliargs.skip_proving
                &&& old(app_state)@.proving_block is Some
                &&& file.folder@ == old(app_state)@.cliargs.inputs.folder@
                &&& file.filename@ == block_info@.filename()
            },
            InputStep::Prove { keep } => {
                &&& !old(app_state)@.cliargs.skip_proving
                &&& old(app_state)@.proving_block is None
                &&& keep is Some <==> old(app_state)@.cliargs.inputs.keep
                &&& keep is Some ==> keep->0.folder@ == old(app_state)@.cliargs.inputs.folder@
                    && keep->0.filename@ == block_info@.filename()
            },
        },
{
    let time_to_input_ms: i64 = match now_ms {
        Some(now) => {
            let timestamp_ms: u128 = block_info.timestamp as u128 * 1000;
            if now >= timestamp_ms {
                (now - timestamp_ms) as i64
            } else {
                let ahead: i128 = (timestamp_ms - now) as i128;
                (-ahead) as i64
            }
        },
        None => 0,
    };
    if app_state.cliargs.metrics.enabled {
        app_state.shared_metrics.insert(
            block_info.block_number,
            BlockMetrics {
                block_number: block_info.block_number,
                received_time_ms: input_time_ms as i64,
                time_to_input_ms,
                mgas: block_info.mgas,
                tx_count: block_info.tx_count as u64,
                timestamp: block_info.timestamp as i64,
                proving_time_ms: None,
                proving_cycles: None,
                submit_time_ms: None,
                success: false,
            },
        );
    }
    if app_state.cliargs.skip_proving {
        return InputStep::Skip;
    }
    if app_state.proving_block.is_some() {
        return InputStep::Queue {
            file: InputFile {
                folder: app_state.cliargs.inputs.folder.clone(),
                filename: block_info.filename(),
            },
        };
    }
    let keep = if app_state.cliargs.inputs.keep {
        Some(
            InputFile {
                folder: app_state.cliargs.inputs.folder.clone(),
                filename: block_info.filename(),
            },
        )
    } else {
        None
    };
    InputStep::Prove { keep }
}

/// The panic of a client that gives up on too many skipped blocks.
pub open spec fn skipped_panic() -> Seq<char> {
    "Skipped blocks exceeded threshold, panicking as per configuration"@
}

/// The state and the actions after a block is queued behind the one being
/// proved. It takes the place of a block queued before. The blocks between the
/// two are skipped. From the threshold on an alert is sent unless one is already
/// out; over the threshold the script runs, and the client may panic. Below it
/// an alert that is out is taken back.
pub open spec fn block_queued<S>(s: AppStateView<S>, block: BlockInfoView) -> (
    AppStateView<S>,
    Seq<ActionView>,
) {
    let proving = s.proving_block->0.block_number;
    let distance = block.block_number - proving;
    let queued = AppStateView { next_proving_block: Some(block), ..s };
    if distance > s.cliargs.skipped.threshold {
        let over = distance - 1 > s.cliargs.skipped.threshold;
        let alert = if s.fired_alerts.skipped {
            None
        } else {
            alert_for(
                s.cliargs,
                TelegramEvent::SkippedThreshold,
                skipped_message(proving, block.block_number, (distance - 1) as u64),
                AlertType::Warning,
            )
        };
        let hooked = if over {
            with_hook(
                Seq::empty(),
                s.cliargs.hooks.blocks_skipped,
                proving,
                s.current_job_id,
            )
        } else {
            Seq::empty()
        };
        let alerted = with_alert(hooked, alert);
        (
            AppStateView {
                fired_alerts: FiredAlerts {
                    skipped: s.fired_alerts.skipped || alert is Some,
                    ..s.fired_alerts
                },
                ..queued
            },
            if over && s.cliargs.skipped.panic {
                let awaited = if alert is Some {
                    alerted.push(ActionView::AwaitAlert)
                } else {
                    alerted
                };
                awaited.push(ActionView::Panic { message: skipped_panic() })
            } else {
                alerted
            },
        )
    } else if s.fired_alerts.skipped {
        (
            AppStateView {
                fired_alerts: FiredAlerts { skipped: false, ..s.fired_alerts },
                ..queued
            },
            with_alert(
                Seq::empty(),
                alert_for(
                    s.cliargs,
                    TelegramEvent::SkippedThreshold,
                    resumed_message(proving),
                    AlertType::Info,
                ),
            ),
        )
    } else {
        (queued, Seq::empty())
    }
}

/// Queues a block behind the one being proved, once its input has been saved.
/// A block whose input could not be saved is dropped.
pub fn process_input_saved<S>(
    block_info: BlockInfo,
    saved: bool,
    app_state: &mut AppState<S>,
) -> (r: Vec<Action>)
    requires
        saved ==> old(app_state)@.proving_block is Some && block_info.block_number
            >= old(app_state)@.proving_block->0.block_number,
    ensures
        saved ==> (final(app_state)@, contents(r@)) == block_queued(
            old(app_state)@,
            block_info@,
        ),
        !saved ==> final(app_state)@ == old(app_state)@ && r@.len() == 0,
{
    let mut actions: Vec<Action> = Vec::new();
    if !saved {
        return actions;
    }
    assert(contents(actions@) =~= Seq::<ActionView>::empty());
    let block_number: u64 = block_info.block_number;
    let proving_block_number: u64 = match &app_state.proving_block {
        Some(block) => block.block_number,
        None => 0,
    };
    app_state.next_proving_block = Some(block_info);

    let distance: u64 = block_number - proving_block_number;
    if distance > app_state.cliargs.skipped.threshold as u64 {
        let skipped_count: u64 = distance - 1;
        let over = skipped_count > app_state.cliargs.skipped.threshold as u64;
        if over {
            add_hook(
                &mut actions,
                &app_state.cliargs.hooks.blocks_skipped,
                proving_block_number,
                &app_state.current_job_id,
            );
        }
        let mut sent = false;
        if !app_state.skipped_alert() {
            let alert = send_skipped_threshold_alert(
                app_state,
                proving_block_number,
                block_number,
                skipped_count,
            );
            sent = add_alert(&mut actions, alert);
            if sent {
                app_state.set_skipped_alert(true);
            }
        }
        if over && app_state.cliargs.skipped.panic {
            if sent {
                add_action(&mut actions, Action::AwaitAlert);
            }
            add_action(
                &mut actions,
                Action::Panic {
                    message: "Skipped blocks exceeded threshold, panicking as per configuration".to_owned(),
                },
            );
        }
    } else if app_state.skipped_alert() {
        app_state.set_skipped_alert(false);
        let alert = send_skipped_resumed_alert(app_state, proving_block_number);
        add_alert(&mut actions, alert);
    }
    actions
}

/// Keeps the input that the next proof is made from.
pub fn store_input<S>(zisk_stdin: S, app_state: &mut AppState<S>)
    ensures
        final(app_state)@ == (AppStateView { zisk_stdin: Some(zisk_stdin), ..old(app_state)@ }),
{
    app_state.zisk_stdin = Some(zisk_stdin);
}

/// What is said of a proof that could not be launched.
pub open spec fn launch_failed_message(block_number: u64, error: Seq<char>) -> Seq<char> {
    "Proof generation failed for block "@ + decimal(block_number as nat) + ", error: "@ + error
}

/// The state and the actions after the proof of a new block has been launched.
/// With a job the block is the one being proved, and an alert of a failure that
/// is out is taken back. Without one the script runs, and an alert is sent
/// unless one is already out.
pub open spec fn proof_launched<S>(
    s: AppStateView<S>,
    block: BlockInfoView,
    result: Result<Seq<char>, Seq<char>>,
) -> (AppStateView<S>, Seq<ActionView>) {
    match result {
        Ok(job_id) => {
            let proving = AppStateView {
                proving_block: Some(block),
                current_job_id: job_id,
                ..s
            };
            if s.fired_alerts.failed {
                (
                    AppStateView {
                        fired_alerts: FiredAlerts { failed: false, ..s.fired_alerts },
                        ..proving
                    },
                    with_alert(
                        Seq::empty(),
                        alert_for(
                            s.cliargs,
                            TelegramEvent::ProofFailed,
                            resumed_message(block.block_number),
                            AlertType::Info,
                        ),
                    ),
                )
            } else {
                (proving, Seq::empty())
            }
        },
        Err(error) => {
            let alert = if s.fired_alerts.failed {
                None
            } else {
                alert_for(
                    s.cliargs,
                    TelegramEvent::ProofFailed,
                    launch_failed_message(block.block_number, error),
                    AlertType::Error,
                )
            };
            (
                AppStateView {
                    fired_alerts: FiredAlerts {
                        failed: s.fired_alerts.failed || alert is Some,
                        ..s.fired_alerts
                    },
                    ..s
                },
                with_alert(
                    with_hook(
                        Seq::empty(),
                        s.cliargs.hooks.proof_failed,
                        block.block_number,
                        s.current_job_id,
                    ),
                    alert,
                ),
            )
        },
    }
}

/// The contents of a job or an error.
pub open spec fn result_view(result: Result<String, String>) -> Result<Seq<char>, Seq<char>> {
    match result {
        Ok(job_id) => Ok(job_id@),
        Err(error) => Err(error@),
    }
}

/// Notes that the proof of a new block has been launched, or that it could not
/// be.
pub fn process_input_launched<S>(
    block_info: BlockInfo,
    result: Result<String, String>,
    app_state: &mut AppState<S>,
) -> (r: Vec<Action>)
    ensures
        (final(app_state)@, contents(r@)) == proof_launched(
            old(app_state)@,
            block_info@,
            result_view(result),
        ),
{
    let mut actions: Vec<Action> = Vec::new();
    assert(contents(actions@) =~= Seq::<ActionView>::empty());
    let block_number: u64 = block_info.block_number;
    match result {
        Ok(job_id) => {
            app_state.proving_block = Some(block_info);
            app_state.current_job_id = job_id;
            if app_state.failed_alert() {
                app_state.set_failed_alert(false);
                let alert = send_proof_resumed_alert(app_state, block_number);
                add_alert(&mut actions, alert);
            }
        },
        Err(error) => {
            let mut message = "Proof generation failed for block ".to_owned();
            push_decimal(&mut message, block_number);
            message.append(", error: ");
            message.append(error.as_str());
            add_hook(
                &mut actions,
                &app_state.cliargs.hooks.proof_failed,
                block_number,
                &app_state.current_job_id,
            );
            if !app_state.failed_alert() {
                let alert = send_proof_failed_alert(app_state, message);
                if add_alert(&mut actions, alert) {
                    app_state.set_failed_alert(true);
                }
            }
        },
    }
    actions
}

/// How the hints of a block are made.
#[derive(Debug)]
pub enum HintsPlan {
    /// Stream them over a socket, with a copy in a file for debugging.
    Socket { socket: String, debug_file: Option<String> },
    /// Write them to a file of the folder.
    File { folder: String, filename: String },
}

/// The file for debugging the hints of a block.
pub open spec fn debug_file_path(folder: Seq<char>, block_number: u64) -> Seq<char> {
    folder + "/"@ + decimal(block_number as nat) + "_hints_debug.bin"@
}

/// The file with the hints of a block.
pub open spec fn hints_filename(block_number: u64) -> Seq<char> {
    decimal(block_number as nat) + "_hints.bin"@
}

/// Decides how the hints of a block are made. Without a stored input there are
/// none.
pub fn generate_hints<S>(block_number: u64, app_state: &AppState<S>) -> (r: Option<HintsPlan>)
    requires
        app_state.cliargs.hints is Some,
    ensures
        r is Some <==> app_state.zisk_stdin is Some,
        r matches Some(plan) ==> match plan {
            HintsPlan::Socket { socket, debug_file } => {
                &&& app_state.cliargs.hints->0.mode == HintsMode::Socket
                &&& socket@ == app_state.cliargs.hints->0.socket@
                &&& debug_file is Some <==> app_state.cliargs.hints->0.debug
                &&& debug_file is Some ==> debug_file->0@ == debug_file_path(
                    app_state.cliargs.hints->0.debug_folder@,
                    block_number,
                )
            },
            HintsPlan::File { folder, filename } => {
                &&& app_state.cliargs.hints->0.mode == HintsMode::File
                &&& folder@ == "./hints"@
                &&& filename@ == hints_filename(block_number)
            },
        },
{
    if app_state.zisk_stdin.is_none() {
        return None;
    }
    match &app_state.cliargs.hints {
        Some(hints) => match hints.mode {
            HintsMode::Socket => {
                let debug_file = if hints.debug {
                    let mut path = hints.debug_folder.clone();
                    path.append("/");
                    push_decimal(&mut path, block_number);
                    path.append("_hints_debug.bin");
                    Some(path)
                } else {
                    None
                };
                Some(HintsPlan::Socket { socket: hints.socket.clone(), debug_file })
            },
            HintsMode::File => {
                let mut filename = decimal_string(block_number);
                filename.append("_hints.bin");
                Some(HintsPlan::File { folder: "./hints".to_owned(), filename })
            },
        },
        None => None,
    }
}

/// The hexadecimal digits of a byte, without a leading zero.
pub open spec fn short_hex(byte: u8) -> Seq<char> {
    if byte < 16 {
        seq![hex_digit(byte as int)]
    } else {
        seq![hex_digit(byte as int / 16), hex_digit(byte as int % 16)]
    }
}

/// Bytes in hexadecimal digits, with a comma and a space between them.
pub open spec fn hex_list(bytes: Seq<u8>) -> Seq<char>
    decreases bytes.len(),
{
    if bytes.len() == 0 {
        Seq::empty()
    } else if bytes.len() == 1 {
        short_hex(bytes[0])
    } else {
        hex_list(bytes.drop_last()) + ", "@ + short_hex(bytes.last())
    }
}

/// How many bytes of an input the log of hints shows.
pub const SHOWN_BYTES: usize = 64;

/// What the log of hints says of an input: its first bytes and its length.
pub open spec fn input_hint_text(input: Seq<u8>) -> Seq<char> {
    let shown = if input.len() > SHOWN_BYTES {
        input.take(SHOWN_BYTES as int)
    } else {
        input
    };
    let more = if input.len() > SHOWN_BYTES {
        "..."@
    } else {
        ""@
    };
    "hint_input_data (input_data: "@ + "["@ + hex_list(shown) + "]"@ + more + " , input_data_len: "@
        + decimal(input.len())
}

/// What the log of hints says of an input: its first bytes and its length.
pub fn input_hint_message(input: &[u8]) -> (r: String)
    ensures
        r@ == input_hint_text(input@),
{
    let shown: usize = if input.len() > SHOWN_BYTES {
        SHOWN_BYTES
    } else {
        input.len()
    };
    let mut list = String::new();
    let mut i: usize = 0;
    while i < shown
        invariant
            i <= shown <= input@.len(),
            list@ == hex_list(input@.take(i as int)),
        decreases shown - i,
    {
        let byte: u8 = input[i];
        if i > 0 {
            list.append(", ");
        }
        if byte >= 16 {
            list.push(hex_char(byte / 16));
        }
        list.push(hex_char(byte % 16));
        proof {
            let so_far = input@.take(i as int);
            let one_more = input@.take(i as int + 1);
            assert(one_more.drop_last() =~= so_far);
            assert(one_more.last() == byte);
            assert(list@ =~= hex_list(one_more));
        }
        i += 1;
    }
    assert(i < input@.len() || input@.take(i as int) =~= input@);
    let mut message = "hint_input_data (input_data: ".to_owned();
    message.append("[");
    message.append(list.as_str());
    message.append("]");
    if input.len() > SHOWN_BYTES {
        message.append("...");
    } else {
        message.append("");
    }
    message.append(" , input_data_len: ");
    push_decimal(&mut message, input.len() as u64);
    message
}

/// The job or the error of a launch is the one that it was given.
pub proof fn law_result_contents(result: Result<String, String>)
    ensures
        result matches Ok(job_id) ==> result_view(result) == Ok::<Seq<char>, Seq<char>>(job_id@),
        result matches Err(error) ==> result_view(result) == Err::<Seq<char>, Seq<char>>(error@),
{
}

/// The files of the hints of a block are named after its number.
pub proof fn law_hints_files(folder: Seq<char>, block_number: u64)
    ensures
        debug_file_path(folder, block_number) == folder + "/"@ + decimal(block_number as nat)
            + "_hints_debug.bin"@,
        hints_filename(block_number) == decimal(block_number as nat) + "_hints.bin"@,
{
}

/// A list of bytes in hexadecimal: each byte in as few digits as it needs, and a
/// comma and a space between two.
pub proof fn law_hex_list(bytes: Seq<u8>, byte: u8)
    ensures
        hex_list(Seq::empty()) == Seq::<char>::empty(),
        hex_list(seq![byte]) == short_hex(byte),
        bytes.len() > 0 ==> hex_list(bytes.push(byte)) == hex_list(bytes) + ", "@ + short_hex(byte),
        byte < 16 ==> short_hex(byte) == seq!["0123456789abcdef"@[byte as int]],
        byte >= 16 ==> short_hex(byte) == seq![
            "0123456789abcdef"@[byte as int / 16],
            "0123456789abcdef"@[byte as int % 16],
        ],
{
    assert(bytes.push(byte).drop_last() =~= bytes);
    law_digits_in_order(byte as int);
    law_digits_in_order(byte as int / 16);
    law_digits_in_order(byte as int % 16);
}

/// What the log says of an input: all of its bytes if they are no more than 64, or
/// else the first 64 and three dots, and in any case its length.
pub proof fn law_input_hint_shows_the_start(input: Seq<u8>)
    ensures
        input.len() <= 64 ==> input_hint_text(input) == "hint_input_data (input_data: "@ + "["@
            + hex_list(input) + "]"@ + ""@ + " , input_data_len: "@ + decimal(input.len()),
        input.len() > 64 ==> input_hint_text(input) == "hint_input_data (input_data: "@ + "["@
            + hex_list(input.take(64)) + "]"@ + "..."@ + " , input_data_len: "@ + decimal(
            input.len(),
        ),
{
}

} // verus!
