//! The proof of a block: how it is requested, which block follows it, and what
//! is done with its result.

use std::fmt::Write;

use vstd::prelude::*;
use vstd::string::*;

use crate::action::{add_action, add_alert, add_hook, Action};
#[allow(unused_imports)]
use crate::action::{contents, with_alert, with_hook, ActionView};
#[allow(unused_imports)]
use crate::cliargs::{CliArgs, TelegramEvent};
use crate::cliargs::HintsMode;
#[allow(unused_imports)]
use crate::codec::{base64_standard, encodable, words_le};
use crate::codec::{encode_bytes, proof_bytes, ProofError};
use crate::db::BlockProof;
#[allow(unused_imports)]
use crate::db::BlockProofView;
use crate::metrics::{
    publish_proof_failure_no_metrics, publish_proof_failure_with_metrics, publish_proof_success,
    BlockMetrics,
};
#[allow(unused_imports)]
use crate::metrics::{proof_failure, proof_success, time_to_proof};
#[allow(unused_imports)]
use crate::process::result_view;
use crate::protocol::BlockInfo;
#[allow(unused_imports)]
use crate::protocol::BlockInfoView;
use crate::state::AppState;
#[allow(unused_imports)]
use crate::state::{csv_row, input_path, summary, AppStateView};
use crate::telegram::{send_block_proved_alert, send_proof_failed_alert};
#[allow(unused_imports)]
use crate::telegram::{alert_for, block_proved_message, AlertType};
#[allow(unused_imports)]
use crate::text::decimal;
use crate::text::{decimal_string, push_decimal};

verus! {

broadcast use vstd::std_specs::hash::group_hash_axioms;

/// The base64 text of a proof.
pub fn get_proof_b64(proof_data: &[u8]) -> (r: Result<String, ProofError>)
    ensures
        match r {
            Ok(text) => encodable(proof_data@.len()) && text@ == base64_standard(proof_data@)
                && text@.len() == (proof_data@.len() + 2) / 3 * 4,
            Err(error) => !encodable(proof_data@.len()) && error == ProofError::TooLong,
        },
{
    encode_bytes(proof_data)
}

/// The text of a time in UTC, in seconds and nanoseconds since 1970, in a
/// format of chrono; none if the time or the format is not valid.
pub uninterp spec fn utc_text(secs: i64, nanos: u32, format: Seq<char>) -> Option<Seq<char>>;

/// Calls chrono's `DateTime::from_timestamp`, `format` and the display of what
/// it gives: the outcome is named `utc_text`. The format of `proof_start_ts` is
/// made of numbers and of characters that stand for themselves, none of them a
/// comma, so the text holds none.
#[verifier::external_body]
fn format_utc(secs: i64, nanos: u32, format: &str) -> (r: Option<String>)
    ensures
        match r {
            Some(text) => utc_text(secs, nanos, format@) == Some(text@),
            None => utc_text(secs, nanos, format@) is None,
        },
        r is Some && format@ == "%Y-%m-%dT%H:%M:%S%.6fZ"@ ==> !r->0@.contains(','),
{
    let time = chrono::DateTime::<chrono::Utc>::from_timestamp(secs, nanos)?;
    let mut text = String::new();
    write!(text, "{}", time.format(format)).ok()?;
    Some(text)
}

/// When a proof was started: the time in UTC with microseconds. It holds no
/// comma, so that it can be a column of the file of proved blocks.
pub fn proof_start_ts(secs: i64, nanos: u32) -> (r: Option<String>)
    ensures
        match r {
            Some(text) => utc_text(secs, nanos, "%Y-%m-%dT%H:%M:%S%.6fZ"@) == Some(text@),
            None => utc_text(secs, nanos, "%Y-%m-%dT%H:%M:%S%.6fZ"@) is None,
        },
        r is Some ==> !r->0@.contains(','),
{
    format_utc(secs, nanos, "%Y-%m-%dT%H:%M:%S%.6fZ")
}

/// A proof to request from the prover.
pub struct ProveRequest<S> {
    /// The input of the block; none where the hints carry it.
    pub stdin: Option<S>,
    pub timeout_secs: u64,
    /// Wrap the proof into its compressed variant.
    pub compressed: bool,
    /// The socket that hints come from.
    pub hints_socket: Option<String>,
    /// Hints go to a file, which has to be complete before the proof starts.
    pub wait_for_hints: bool,
}

/// Prepares the request of a proof: the stored input is taken, unless hints
/// carry it to the prover.
pub fn generate_proof<S>(app_state: &mut AppState<S>) -> (r: ProveRequest<S>)
    requires
        old(app_state)@.cliargs.hints is None ==> old(app_state)@.zisk_stdin is Some,
    ensures
        r.timeout_secs == old(app_state)@.cliargs.prove_timeout,
        r.compressed == old(app_state)@.cliargs.compressed,
        match old(app_state)@.cliargs.hints {
            Some(hints) => {
                &&& final(app_state)@ == old(app_state)@
                &&& r.stdin is None
                &&& r.hints_socket is Some
                &&& r.hints_socket->0@ == hints.socket@
                &&& r.wait_for_hints == (hints.mode == HintsMode::File)
            },
            None => {
                &&& final(app_state)@ == (AppStateView { zisk_stdin: None, ..old(app_state)@ })
                &&& r.stdin == old(app_state)@.zisk_stdin
                &&& r.hints_socket is None
                &&& !r.wait_for_hints
            },
        },
{
    let timeout_secs: u64 = app_state.cliargs.prove_timeout;
    let compressed = app_state.cliargs.compressed;
    match &app_state.cliargs.hints {
        Some(hints) => ProveRequest {
            stdin: None,
            timeout_secs,
            compressed,
            hints_socket: Some(hints.socket.clone()),
            wait_for_hints: hints.mode == HintsMode::File,
        },
        None => {
            let stdin = app_state.zisk_stdin.take();
            ProveRequest {
                stdin,
                timeout_secs,
                compressed,
                hints_socket: None,
                wait_for_hints: false,
            }
        },
    }
}

/// The job of a proof, as it is shown and reported.
pub open spec fn shown_job(job_id: Option<String>) -> Seq<char> {
    match job_id {
        Some(id) => id@,
        None => "N/A"@,
    }
}

/// The job of a proof, as it is shown and reported.
pub fn job_id_text(job_id: &Option<String>) -> (r: String)
    ensures
        r@ == shown_job(*job_id),
{
    match job_id {
        Some(id) => id.clone(),
        None => "N/A".to_owned(),
    }
}

/// What is said of a proof that the prover did not start.
pub fn start_failed_message(block_number: u64, error: &str) -> (r: String)
    ensures
        r@ == "Failed to start proof generation for block "@ + decimal(block_number as nat) + ": "@
            + error@,
{
    let mut message = "Failed to start proof generation for block ".to_owned();
    push_decimal(&mut message, block_number);
    message.append(": ");
    message.append(error);
    message
}

/// The block to prove next, and the file with its input.
#[derive(Debug)]
pub struct NextBlock {
    pub block: BlockInfo,
    pub input_path: String,
}

/// The state after a proof has come back: the queued block is the one being
/// proved, unless the run time is over.
pub open spec fn queue_advanced<S>(s: AppStateView<S>, past_deadline: bool) -> AppStateView<S> {
    AppStateView {
        proving_block: if past_deadline {
            None
        } else {
            s.next_proving_block
        },
        next_proving_block: None,
        ..s
    }
}

/// Takes the queued block, if there is one and the run time is not over, and
/// makes it the block being proved. Otherwise no block is being proved.
pub fn advance_queue<S>(app_state: &mut AppState<S>, past_deadline: bool) -> (r: Option<NextBlock>)
    ensures
        final(app_state)@ == queue_advanced(old(app_state)@, past_deadline),
        match r {
            Some(next) => {
                &&& !past_deadline
                &&& old(app_state)@.next_proving_block == Some(next.block@)
                &&& next.input_path@ == input_path(
                    old(app_state)@.cliargs,
                    next.block@.filename(),
                )
            },
            None => past_deadline || old(app_state)@.next_proving_block is None,
        },
{
    let queued = app_state.next_proving_block.take();
    match queued {
        Some(block) => {
            if past_deadline {
                app_state.proving_block = None;
                None
            } else {
                app_state.proving_block = Some(block.clone());
                let filename = block.filename();
                let input_path = app_state.input_file_path(&filename);
                Some(NextBlock { block, input_path })
            }
        },
        None => {
            app_state.proving_block = None;
            None
        },
    }
}

/// What is done when a proof has come back.
#[derive(Debug)]
pub struct ProofReturned {
    pub actions: Vec<Action>,
    /// The block whose proof is launched next.
    pub next: Option<NextBlock>,
    /// The run time is over: the program exits once the result is processed.
    pub deadline_reached: bool,
}

/// The actions when a proof has come back: the block is reported to EthProofs,
/// and without a next block the end of the proof is signalled.
pub open spec fn returned_actions<S>(s: AppStateView<S>, block_number: u64, past_deadline: bool) -> Seq<
    ActionView,
> {
    let reported = if s.cliargs.ethproofs.submit {
        seq![
            ActionView::ReportProving {
                cluster_id: s.cliargs.ethproofs.cluster_id->0,
                block_number,
            },
        ]
    } else {
        Seq::empty()
    };
    if past_deadline || s.next_proving_block is None {
        reported.push(ActionView::NotifyProofDone)
    } else {
        reported
    }
}

/// Moves on when the proof of a block has come back, good or bad: the queued
/// block follows, unless the run time is over.
pub fn proof_returned<S>(block_number: u64, now: u128, app_state: &mut AppState<S>) -> (r:
    ProofReturned)
    requires
        old(app_state)@.cliargs.can_report(),
    ensures
        r.deadline_reached == old(app_state).past_deadline(now),
        final(app_state)@ == queue_advanced(old(app_state)@, r.deadline_reached),
        contents(r.actions@) == returned_actions(
            old(app_state)@,
            block_number,
            r.deadline_reached,
        ),
        match r.next {
            Some(next) => {
                &&& !r.deadline_reached
                &&& old(app_state)@.next_proving_block == Some(next.block@)
                &&& next.input_path@ == input_path(
                    old(app_state)@.cliargs,
                    next.block@.filename(),
                )
            },
            None => r.deadline_reached || old(app_state)@.next_proving_block is None,
        },
{
    let mut actions: Vec<Action> = Vec::new();
    assert(contents(actions@) =~= Seq::<ActionView>::empty());
    if app_state.cliargs.ethproofs.submit {
        match app_state.cliargs.ethproofs.cluster_id {
            Some(cluster_id) => {
                add_action(&mut actions, Action::ReportProving { cluster_id, block_number });
            },
            None => {},
        }
        assert(contents(actions@) =~= seq![
            ActionView::ReportProving {
                cluster_id: old(app_state)@.cliargs.ethproofs.cluster_id->0,
                block_number,
            },
        ]);
    }
    let deadline_reached = app_state.deadline_reached(now);
    let next = advance_queue(app_state, deadline_reached);
    if next.is_none() {
        add_action(&mut actions, Action::NotifyProofDone);
    }
    ProofReturned { actions, next, deadline_reached }
}

/// What is said of a queued block whose proof could not be launched.
pub open spec fn next_failed_message(block_number: u64, error: Seq<char>) -> Seq<char> {
    "Proof generation failed for next block "@ + decimal(block_number as nat) + ", error: "@ + error
}

/// Appends the deletion of a block's input file, unless input files are kept.
pub open spec fn with_deletion(
    actions: Seq<ActionView>,
    cliargs: CliArgs,
    block: BlockInfoView,
) -> Seq<ActionView> {
    if cliargs.inputs.keep {
        actions
    } else {
        actions.push(
            ActionView::DeleteInput { path: input_path(cliargs, block.filename()) },
        )
    }
}

/// Appends the deletion of a block's input file, unless input files are kept.
pub fn add_deletion<S>(actions: &mut Vec<Action>, app_state: &AppState<S>, block: &BlockInfo)
    ensures
        contents(final(actions)@) == with_deletion(
            contents(old(actions)@),
            app_state.cliargs,
            block@,
        ),
{
    let filename = block.filename();
    match app_state.delete_input_file(&filename) {
        Some(path) => {
            add_action(actions, Action::DeleteInput { path });
        },
        None => {},
    }
}

/// The state and the actions after the proof of a queued block has been
/// launched. With a job the job is noted. Without one no block is being proved,
/// the script runs if `hook` says so, an alert is sent, and the input is
/// deleted.
pub open spec fn next_launched<S>(
    s: AppStateView<S>,
    next: BlockInfoView,
    result: Result<Seq<char>, Seq<char>>,
    hook: bool,
) -> (AppStateView<S>, Seq<ActionView>) {
    match result {
        Ok(job_id) => (AppStateView { current_job_id: job_id, ..s }, Seq::empty()),
        Err(error) => {
            let hooked = if hook {
                with_hook(
                    Seq::empty(),
                    s.cliargs.hooks.proof_failed,
                    next.block_number,
                    s.current_job_id,
                )
            } else {
                Seq::empty()
            };
            let alerted = with_alert(
                hooked,
                alert_for(
                    s.cliargs,
                    TelegramEvent::ProofFailed,
                    next_failed_message(next.block_number, error),
                    AlertType::Error,
                ),
            );
            (
                AppStateView { proving_block: None, ..s },
                with_deletion(alerted, s.cliargs, next),
            )
        },
    }
}

/// Notes that the proof of a queued block has been launched, or that it could
/// not be.
pub fn next_proof_launched<S>(
    next: &BlockInfo,
    result: Result<String, String>,
    hook: bool,
    app_state: &mut AppState<S>,
) -> (r: Vec<Action>)
    ensures
        (final(app_state)@, contents(r@)) == next_launched(
            old(app_state)@,
            next@,
            result_view(result),
            hook,
        ),
{
    let mut actions: Vec<Action> = Vec::new();
    assert(contents(actions@) =~= Seq::<ActionView>::empty());
    match result {
        Ok(job_id) => {
            app_state.current_job_id = job_id;
        },
        Err(error) => {
            app_state.proving_block = None;
            let mut message = "Proof generation failed for next block ".to_owned();
            push_decimal(&mut message, next.block_number);
            message.append(", error: ");
            message.append(error.as_str());
            if hook {
                add_hook(
                    &mut actions,
                    &app_state.cliargs.hooks.proof_failed,
                    next.block_number,
                    &app_state.current_job_id,
                );
            }
            let alert = send_proof_failed_alert(app_state, message);
            add_alert(&mut actions, alert);
            add_deletion(&mut actions, app_state, next);
        },
    }
    actions
}

/// A proof that came back.
#[derive(Debug)]
pub struct ProveResult {
    /// The words of the proof; none if the prover could not hand them out.
    pub proof: Option<Vec<u64>>,
    pub proving_time_ms: u64,
    pub proving_cycles: u64,
    pub job_id: Option<String>,
}

/// The entry of a proved block in the database.
pub open spec fn proof_entry(
    cliargs: CliArgs,
    block_number: u64,
    proof: Seq<char>,
    proving_time_ms: u64,
    proving_cycles: u64,
) -> BlockProofView {
    BlockProofView {
        block_number,
        zisk_version: match cliargs.db.zisk_version {
            Some(version) => version@,
            None => Seq::empty(),
        },
        hardware: match cliargs.db.hardware {
            Some(hardware) => hardware@,
            None => Seq::empty(),
        },
        proof,
        proving_time: proving_time_ms as u32,
        steps: proving_cycles,
    }
}

fn string_or_empty(value: &Option<String>) -> (r: String)
    ensures
        r@ == match *value {
            Some(v) => v@,
            None => Seq::empty(),
        },
{
    match value {
        Some(v) => v.clone(),
        None => String::new(),
    }
}

/// Appends the entry of a proved block, if the database is enabled.
pub open spec fn with_entry(
    actions: Seq<ActionView>,
    cliargs: CliArgs,
    block_number: u64,
    proof: Seq<char>,
    proving_time_ms: u64,
    proving_cycles: u64,
) -> Seq<ActionView> {
    if cliargs.db.enabled {
        actions.push(
            ActionView::InsertProof {
                entry: proof_entry(cliargs, block_number, proof, proving_time_ms, proving_cycles),
            },
        )
    } else {
        actions
    }
}

/// Appends the entry of a proved block, if the database is enabled.
pub fn add_entry<S>(
    actions: &mut Vec<Action>,
    app_state: &AppState<S>,
    block_number: u64,
    proof: String,
    proving_time_ms: u64,
    proving_cycles: u64,
)
    ensures
        contents(final(actions)@) == with_entry(
            contents(old(actions)@),
            app_state.cliargs,
            block_number,
            proof@,
            proving_time_ms,
            proving_cycles,
        ),
{
    if app_state.cliargs.db.enabled {
        let entry = BlockProof {
            block_number,
            zisk_version: string_or_empty(&app_state.cliargs.db.zisk_version),
            hardware: string_or_empty(&app_state.cliargs.db.hardware),
            proof,
            proving_time: proving_time_ms as u32,
            steps: proving_cycles,
        };
        add_action(actions, Action::InsertProof { entry });
    }
}

/// The figures of a block completed by those of its proof. The time of the
/// submission is given where it is known.
pub open spec fn completed_metrics(
    m: BlockMetrics,
    proving_time_ms: u64,
    proving_cycles: u64,
    submit_time_ms: Option<i64>,
) -> BlockMetrics {
    BlockMetrics {
        proving_time_ms: Some(proving_time_ms as i64),
        proving_cycles: Some(proving_cycles as i64),
        submit_time_ms: match submit_time_ms {
            Some(time) => Some(time),
            None => m.submit_time_ms,
        },
        success: true,
        ..m
    }
}

/// The state after the figures of a proved or failed block have been published:
/// they are no longer kept, and the block number gauge names the block.
pub open spec fn metrics_published<S>(s: AppStateView<S>, key: u64, published: u64) -> AppStateView<S> {
    AppStateView {
        shared_metrics: s.shared_metrics.remove(key),
        latest_block: published as i64,
        ..s
    }
}

/// The state and the actions after the metrics of a proved block. A block
/// without figures is not published.
pub open spec fn success_published<S>(
    s: AppStateView<S>,
    actions: Seq<ActionView>,
    block_number: u64,
    proving_time_ms: u64,
    proving_cycles: u64,
    submit_time_ms: Option<i64>,
) -> (AppStateView<S>, Seq<ActionView>) {
    if s.cliargs.metrics.enabled && s.shared_metrics.contains_key(block_number) {
        let m = completed_metrics(
            s.shared_metrics[block_number],
            proving_time_ms,
            proving_cycles,
            submit_time_ms,
        );
        (
            metrics_published(s, block_number, m.block_number),
            actions.push(
                ActionView::Publish { ops: proof_success(s.latest_block, m, proving_time_ms) },
            ),
        )
    } else {
        (s, actions)
    }
}

/// Whether the times of a block add up without overflow.
pub open spec fn times_add_up<S>(s: AppStateView<S>, block_number: u64, proving_time_ms: u64) -> bool {
    s.cliargs.metrics.enabled && s.shared_metrics.contains_key(block_number) ==> i64::MIN
        <= time_to_proof(s.shared_metrics[block_number], proving_time_ms) <= i64::MAX
}

/// Whether the times of a block add up without overflow.
pub fn can_publish<S>(app_state: &AppState<S>, block_number: u64, proving_time_ms: u64) -> (r: bool)
    ensures
        r == times_add_up(app_state@, block_number, proving_time_ms),
{
    if !app_state.cliargs.metrics.enabled {
        return true;
    }
    match app_state.shared_metrics.get(&block_number) {
        Some(metrics) => metrics.time_to_input_ms.checked_add(proving_time_ms as i64).is_some(),
        None => true,
    }
}

/// Publishes the metrics of a proved block, if they are enabled and its figures
/// are known.
pub fn publish_success<S>(
    actions: &mut Vec<Action>,
    app_state: &mut AppState<S>,
    block_number: u64,
    proving_time_ms: u64,
    proving_cycles: u64,
    submit_time_ms: Option<i64>,
)
    requires
        times_add_up(old(app_state)@, block_number, proving_time_ms),
    ensures
        (final(app_state)@, contents(final(actions)@)) == success_published(
            old(app_state)@,
            contents(old(actions)@),
            block_number,
            proving_time_ms,
            proving_cycles,
            submit_time_ms,
        ),
{
    if app_state.cliargs.metrics.enabled {
        match app_state.shared_metrics.remove(&block_number) {
            Some(noted) => {
                let metrics = BlockMetrics {
                    proving_time_ms: Some(proving_time_ms as i64),
                    proving_cycles: Some(proving_cycles as i64),
                    submit_time_ms: match submit_time_ms {
                        Some(time) => Some(time),
                        None => noted.submit_time_ms,
                    },
                    success: true,
                    ..noted
                };
                let ops = publish_proof_success(
                    app_state.latest_block,
                    &metrics,
                    proving_time_ms,
                );
                app_state.latest_block = metrics.block_number as i64;
                add_action(actions, Action::Publish { ops });
            },
            None => {
                assert(app_state.shared_metrics@ =~= old(app_state)@.shared_metrics);
            },
        }
    }
}

/// The state and the actions after the metrics of a failed block.
pub open spec fn failure_published<S>(
    s: AppStateView<S>,
    actions: Seq<ActionView>,
    block_number: u64,
) -> (AppStateView<S>, Seq<ActionView>) {
    if s.cliargs.metrics.enabled {
        let m = if s.shared_metrics.contains_key(block_number) {
            Some(s.shared_metrics[block_number])
        } else {
            None
        };
        (
            metrics_published(
                s,
                block_number,
                match m {
                    Some(m) => m.block_number,
                    None => block_number,
                },
            ),
            actions.push(
                ActionView::Publish {
                    ops: match m {
                        Some(m) => proof_failure(s.latest_block, m.block_number, Some(m)),
                        None => proof_failure(s.latest_block, block_number, None),
                    },
                },
            ),
        )
    } else {
        (s, actions)
    }
}

/// Publishes the metrics of a failed block, if they are enabled.
pub fn publish_failure<S>(
    actions: &mut Vec<Action>,
    app_state: &mut AppState<S>,
    block_number: u64,
)
    ensures
        (final(app_state)@, contents(final(actions)@)) == failure_published(
            old(app_state)@,
            contents(old(actions)@),
            block_number,
        ),
        final(app_state).encodings@ == old(app_state).encodings@,
{
    if app_state.cliargs.metrics.enabled {
        match app_state.shared_metrics.remove(&block_number) {
            Some(metrics) => {
                let ops = publish_proof_failure_with_metrics(app_state.latest_block, &metrics);
                app_state.latest_block = metrics.block_number as i64;
                add_action(actions, Action::Publish { ops });
            },
            None => {
                assert(app_state.shared_metrics@ =~= old(app_state)@.shared_metrics.remove(
                    block_number,
                ));
                let ops = publish_proof_failure_no_metrics(app_state.latest_block, block_number);
                app_state.latest_block = block_number as i64;
                add_action(actions, Action::Publish { ops });
            },
        }
    }
}

/// The file that the proof of a block is saved to.
pub open spec fn proof_filename(block_number: u64) -> Seq<char> {
    decimal(block_number as nat) + "_proof.bin"@
}

/// The state and the actions after a proof: it is counted and recorded, saved,
/// submitted, stored, alerted and published as configured, and the block's
/// input is deleted. Without the words of the proof it is only counted and
/// recorded; a proof whose text does not fit in memory goes no further than to
/// its file.
pub open spec fn proof_succeeded<S>(
    s: AppStateView<S>,
    block: BlockInfoView,
    proof_start_ts: Seq<char>,
    result: ProveResult,
) -> (AppStateView<S>, Seq<ActionView>) {
    let n = block.block_number;
    let counted = AppStateView { proved_blocks: s.proved_blocks.wrapping_add(1), ..s };
    let recorded = if s.cliargs.proof.csv is Some {
        seq![
            ActionView::WriteCsv {
                row: csv_row(
                    proof_start_ts,
                    n,
                    block.mgas,
                    block.tx_count,
                    result.proving_cycles,
                    result.proving_time_ms,
                ),
            },
        ]
    } else {
        Seq::empty()
    };
    let proof_words = result.proof;
    match proof_words {
        None => (counted, recorded),
        Some(words) => {
            let bytes = words_le(words@);
            let saved = if s.cliargs.proof.save {
                recorded.push(
                    ActionView::SaveProof {
                        folder: s.cliargs.proof.folder@,
                        filename: proof_filename(n),
                        bytes,
                    },
                )
            } else {
                recorded
            };
            if !encodable(bytes.len()) {
                (counted, saved)
            } else {
                let proof = base64_standard(bytes);
                let submitted = if s.cliargs.ethproofs.submit {
                    saved.push(
                        ActionView::ReportProved {
                            cluster_id: s.cliargs.ethproofs.cluster_id->0,
                            block_number: n,
                            proving_time_ms: result.proving_time_ms as u128,
                            proving_cycles: result.proving_cycles,
                            proof,
                            job_id: shown_job(result.job_id),
                        },
                    )
                } else {
                    saved
                };
                let stored = with_entry(
                    submitted,
                    s.cliargs,
                    n,
                    proof,
                    result.proving_time_ms,
                    result.proving_cycles,
                );
                let alerted = with_alert(
                    stored,
                    alert_for(
                        s.cliargs,
                        TelegramEvent::BlockProved,
                        block_proved_message(n, result.proving_time_ms, result.proving_cycles),
                        AlertType::Success,
                    ),
                );
                let (published, ops) = success_published(
                    counted,
                    alerted,
                    n,
                    result.proving_time_ms,
                    result.proving_cycles,
                    None,
                );
                (published, with_deletion(ops, s.cliargs, block))
            }
        },
    }
}

/// Processes a proof: counts and records it, saves, submits, stores, alerts and
/// publishes it as configured, and deletes the block's input.
pub fn process_proof_success<S>(
    result: &ProveResult,
    block_info: &BlockInfo,
    proof_start_ts: &str,
    app_state: &mut AppState<S>,
) -> (r: Vec<Action>)
    requires
        old(app_state)@.cliargs.can_report(),
        result.proof is Some ==> times_add_up(
            old(app_state)@,
            block_info.block_number,
            result.proving_time_ms,
        ),
    ensures
        (final(app_state)@, contents(r@)) == proof_succeeded(
            old(app_state)@,
            block_info@,
            proof_start_ts@,
            *result,
        ),
{
    let block_number: u64 = block_info.block_number;
    let mut actions: Vec<Action> = Vec::new();
    assert(contents(actions@) =~= Seq::<ActionView>::empty());
    let row = app_state.record_proved_block(
        proof_start_ts,
        block_number,
        block_info.mgas,
        block_info.tx_count,
        result.proving_cycles,
        result.proving_time_ms,
    );
    match row {
        Some(row) => {
            add_action(&mut actions, Action::WriteCsv { row });
            assert(contents(actions@) =~= seq![contents(actions@)[0]]);
        },
        None => {},
    }

    let proof_words = &result.proof;
    let bytes = match proof_words {
        Some(words) => proof_bytes(words),
        None => return actions,
    };
    let encoded = get_proof_b64(bytes.as_slice());

    if app_state.cliargs.proof.save {
        let mut filename = decimal_string(block_number);
        filename.append("_proof.bin");
        add_action(
            &mut actions,
            Action::SaveProof {
                folder: app_state.cliargs.proof.folder.clone(),
                filename,
                bytes,
            },
        );
    }
    let proof = match encoded {
        Ok(text) => text,
        Err(_) => return actions,
    };

    if app_state.cliargs.ethproofs.submit {
        match app_state.cliargs.ethproofs.cluster_id {
            Some(cluster_id) => {
                add_action(
                    &mut actions,
                    Action::ReportProved {
                        cluster_id,
                        block_number,
                        proving_time_ms: result.proving_time_ms as u128,
                        proving_cycles: result.proving_cycles,
                        proof: proof.clone(),
                        job_id: job_id_text(&result.job_id),
                    },
                );
            },
            None => {},
        }
    }
    add_entry(
        &mut actions,
        app_state,
        block_number,
        proof,
        result.proving_time_ms,
        result.proving_cycles,
    );
    let alert = send_block_proved_alert(
        app_state,
        block_number,
        result.proving_time_ms,
        result.proving_cycles,
    );
    add_alert(&mut actions, alert);
    publish_success(
        &mut actions,
        app_state,
        block_number,
        result.proving_time_ms,
        result.proving_cycles,
        None,
    );
    add_deletion(&mut actions, app_state, block_info);
    actions
}

/// What is said of a failed proof.
pub open spec fn proof_failed_message(block_number: u64, error: Seq<char>) -> Seq<char> {
    "Failed proof for block "@ + decimal(block_number as nat) + ", error: "@ + error
}

/// The state and the actions after a failed proof: the script runs, an alert is
/// sent, the failure is published, and the program may exit once the alert has
/// been handled.
pub open spec fn proof_failed<S>(
    s: AppStateView<S>,
    block_number: u64,
    error: Seq<char>,
    job_id: Seq<char>,
) -> (AppStateView<S>, Seq<ActionView>) {
    let hooked = with_hook(Seq::empty(), s.cliargs.hooks.proof_failed, block_number, job_id);
    let alert = alert_for(
        s.cliargs,
        TelegramEvent::ProofFailed,
        proof_failed_message(block_number, error),
        AlertType::Error,
    );
    let (published, ops) = failure_published(s, with_alert(hooked, alert), block_number);
    if s.cliargs.exit_on_error {
        let awaited = if alert is Some {
            ops.push(ActionView::AwaitAlert)
        } else {
            ops
        };
        (
            published,
            awaited.push(
                ActionView::LogSummary { text: summary(s.proved_blocks) },
            ).push(ActionView::Exit { code: 1 }),
        )
    } else {
        (published, ops)
    }
}

/// Processes a failed proof: runs the script, alerts, publishes the failure,
/// and exits if it is so configured.
pub fn process_proof_failure<S>(
    error: &str,
    block_number: u64,
    prove_job_id: &String,
    app_state: &mut AppState<S>,
) -> (r: Vec<Action>)
    ensures
        (final(app_state)@, contents(r@)) == proof_failed(
            old(app_state)@,
            block_number,
            error@,
            prove_job_id@,
        ),
{
    let mut actions: Vec<Action> = Vec::new();
    assert(contents(actions@) =~= Seq::<ActionView>::empty());
    let mut message = "Failed proof for block ".to_owned();
    push_decimal(&mut message, block_number);
    message.append(", error: ");
    message.append(error);
    add_hook(&mut actions, &app_state.cliargs.hooks.proof_failed, block_number, prove_job_id);
    let alert = send_proof_failed_alert(app_state, message);
    let sent = add_alert(&mut actions, alert);
    publish_failure(&mut actions, app_state, block_number);
    if app_state.cliargs.exit_on_error {
        if sent {
            add_action(&mut actions, Action::AwaitAlert);
        }
        let text = app_state.log_proved_blocks_summary();
        add_action(&mut actions, Action::LogSummary { text });
        add_action(&mut actions, Action::Exit { code: 1 });
    }
    actions
}

/// The actions once the result of a proof has been processed: when the run time
/// is over, the summary and the end of the program.
pub open spec fn processed_actions(deadline_reached: bool, proved_blocks: u64) -> Seq<ActionView> {
    if deadline_reached {
        seq![
            ActionView::LogSummary { text: summary(proved_blocks) },
            ActionView::Exit { code: 0 },
        ]
    } else {
        Seq::empty()
    }
}

/// The actions once the result of a proof has been processed: when the run time
/// is over, the summary and the end of the program.
pub fn proof_processed<S>(deadline_reached: bool, app_state: &AppState<S>) -> (r: Vec<Action>)
    ensures
        contents(r@) == processed_actions(deadline_reached, app_state.proved_blocks),
{
    let mut actions: Vec<Action> = Vec::new();
    if deadline_reached {
        let text = app_state.log_proved_blocks_summary();
        actions.push(Action::LogSummary { text });
        actions.push(Action::Exit { code: 0 });
    }
    actions
}

/// The times of a block add up exactly if its figures are not published, or the
/// time to its input and the proving time, in 64 signed bits, have a sum in 64
/// signed bits.
pub proof fn law_when_times_add_up<S>(s: AppStateView<S>, block_number: u64, proving_time_ms: u64)
    ensures
        !s.cliargs.metrics.enabled ==> times_add_up(s, block_number, proving_time_ms),
        !s.shared_metrics.contains_key(block_number) ==> times_add_up(
            s,
            block_number,
            proving_time_ms,
        ),
        s.cliargs.metrics.enabled && s.shared_metrics.contains_key(block_number) ==> (times_add_up(
            s,
            block_number,
            proving_time_ms,
        ) <==> i64::MIN <= s.shared_metrics[block_number].time_to_input_ms + (
        proving_time_ms as i64) <= i64::MAX),
{
}

} // verus!
