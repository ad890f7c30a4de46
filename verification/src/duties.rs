//! What each event makes the client do, kind by kind of action: how often, with
//! which values, and what changes in its state.

use vstd::prelude::*;
use vstd::string::*;

#[allow(unused_imports)]
use crate::action::{with_alert, with_hook, ActionView};
#[allow(unused_imports)]
use crate::cliargs::{CliArgs, TelegramEvent};
#[allow(unused_imports)]
use crate::codec::{
    base64_bytes, base64_standard, encodable, law_base64_decodes, law_proof_bytes_hold_every_word,
    le_value, lemma_words_le_len, words_le,
};
#[allow(unused_imports)]
use crate::db::BlockProofView;
#[allow(unused_imports)]
use crate::metrics::{proof_failure, proof_success, BlockMetrics};
#[allow(unused_imports)]
use crate::process::{block_queued, input_noted, proof_launched};
#[allow(unused_imports)]
use crate::protocol::BlockInfoView;
#[allow(unused_imports)]
use crate::prove::{
    failure_published, next_launched, processed_actions, proof_entry, proof_failed,
    proof_succeeded, queue_advanced, returned_actions, success_published, with_deletion,
    with_entry, ProveResult,
};
#[allow(unused_imports)]
use crate::state::{csv_row, AppStateView};
#[allow(unused_imports)]
use crate::telegram::{alert_for, AlertType, AlertView};
#[allow(unused_imports)]
use crate::text::decimal;
#[allow(unused_imports)]
use crate::webhook::{webhook_failed, webhook_stored, webhook_submission, WebhookPayload};

verus! {

/// The kind of an action.
pub enum Kind {
    ReportQueued,
    ReportProving,
    ReportProved,
    RunHook,
    SendAlert,
    AwaitAlert,
    WriteCsv,
    SaveProof,
    InsertProof,
    Publish,
    DeleteInput,
    NotifyProofDone,
    LogSummary,
    Panic,
    Exit,
}

/// The kind of an action.
pub open spec fn kind(action: ActionView) -> Kind {
    match action {
        ActionView::ReportQueued { .. } => Kind::ReportQueued,
        ActionView::ReportProving { .. } => Kind::ReportProving,
        ActionView::ReportProved { .. } => Kind::ReportProved,
        ActionView::RunHook { .. } => Kind::RunHook,
        ActionView::SendAlert { .. } => Kind::SendAlert,
        ActionView::AwaitAlert => Kind::AwaitAlert,
        ActionView::WriteCsv { .. } => Kind::WriteCsv,
        ActionView::SaveProof { .. } => Kind::SaveProof,
        ActionView::InsertProof { .. } => Kind::InsertProof,
        ActionView::Publish { .. } => Kind::Publish,
        ActionView::DeleteInput { .. } => Kind::DeleteInput,
        ActionView::NotifyProofDone => Kind::NotifyProofDone,
        ActionView::LogSummary { .. } => Kind::LogSummary,
        ActionView::Panic { .. } => Kind::Panic,
        ActionView::Exit { .. } => Kind::Exit,
    }
}

/// The actions of a kind in a list, in their order.
pub open spec fn of_kind(actions: Seq<ActionView>, k: Kind) -> Seq<ActionView>
    decreases actions.len(),
{
    if actions.len() == 0 {
        Seq::empty()
    } else {
        let before = of_kind(actions.drop_last(), k);
        if kind(actions.last()) == k {
            before.push(actions.last())
        } else {
            before
        }
    }
}

/// Every action of a list is among those of its kind.
pub proof fn law_kinds_cover_all_actions(actions: Seq<ActionView>, i: int)
    requires
        0 <= i < actions.len(),
    ensures
        of_kind(actions, kind(actions[i])).contains(actions[i]),
    decreases actions.len(),
{
    let k = kind(actions[i]);
    let before = of_kind(actions.drop_last(), k);
    if i == actions.len() - 1 {
        assert(of_kind(actions, k)[before.len() as int] == actions[i]);
    } else {
        law_kinds_cover_all_actions(actions.drop_last(), i);
        let j = choose|j: int| 0 <= j < before.len() && before[j] == actions[i];
        assert(of_kind(actions, k)[j] == actions[i]);
    }
}

proof fn lemma_push(actions: Seq<ActionView>, action: ActionView)
    ensures
        forall|k: Kind| #[trigger]
            of_kind(actions.push(action), k) == if kind(action) == k {
                of_kind(actions, k).push(action)
            } else {
                of_kind(actions, k)
            },
{
    assert(actions.push(action).drop_last() =~= actions);
}

/// A configured script runs once, on the number of a block and a job; nothing
/// else is added, and without a script nothing at all.
pub proof fn law_hook_runs_its_script(
    actions: Seq<ActionView>,
    script: Option<String>,
    block_number: u64,
    job_id: Seq<char>,
)
    ensures
        forall|k: Kind| #[trigger]
            of_kind(with_hook(actions, script, block_number, job_id), k) == if k is RunHook
                && script is Some {
                of_kind(actions, k).push(
                    ActionView::RunHook {
                        script: script->0@,
                        args: seq![decimal(block_number as nat), job_id],
                    },
                )
            } else {
                of_kind(actions, k)
            },
{
    if script is Some {
        lemma_push(actions, with_hook(actions, script, block_number, job_id).last());
    }
}

/// An alert is sent once if there is one; nothing else is added.
pub proof fn law_alert_is_sent(actions: Seq<ActionView>, alert: Option<AlertView>)
    ensures
        forall|k: Kind| #[trigger]
            of_kind(with_alert(actions, alert), k) == if k is SendAlert && alert is Some {
                of_kind(actions, k).push(ActionView::SendAlert { alert: alert->0 })
            } else {
                of_kind(actions, k)
            },
{
    if alert is Some {
        lemma_push(actions, ActionView::SendAlert { alert: alert->0 });
    }
}

/// An input file is deleted once, in the input folder and under the name of its
/// block, unless inputs are kept; nothing else is added.
pub proof fn law_input_is_deleted(
    actions: Seq<ActionView>,
    cliargs: CliArgs,
    block: BlockInfoView,
)
    ensures
        forall|k: Kind| #[trigger]
            of_kind(with_deletion(actions, cliargs, block), k) == if k is DeleteInput
                && !cliargs.inputs.keep {
                of_kind(actions, k).push(
                    ActionView::DeleteInput {
                        path: cliargs.inputs.folder@ + "/"@ + block.filename(),
                    },
                )
            } else {
                of_kind(actions, k)
            },
{
    if !cliargs.inputs.keep {
        lemma_push(actions, with_deletion(actions, cliargs, block).last());
    }
}

/// The text of a setting; empty if it is not set.
pub open spec fn setting(value: Option<String>) -> Seq<char> {
    match value {
        Some(text) => text@,
        None => Seq::empty(),
    }
}

/// A proof is stored once if the database is enabled, with the block, the text,
/// the time in 32 bits, the steps and the configured version and hardware;
/// nothing else is added.
pub proof fn law_proof_is_stored(
    actions: Seq<ActionView>,
    cliargs: CliArgs,
    block_number: u64,
    text: Seq<char>,
    time: u64,
    steps: u64,
)
    ensures
        forall|k: Kind| #[trigger]
            of_kind(with_entry(actions, cliargs, block_number, text, time, steps), k) == if k
                is InsertProof && cliargs.db.enabled {
                of_kind(actions, k).push(
                    ActionView::InsertProof {
                        entry: BlockProofView {
                            block_number,
                            zisk_version: setting(cliargs.db.zisk_version),
                            hardware: setting(cliargs.db.hardware),
                            proof: text,
                            proving_time: time as u32,
                            steps,
                        },
                    },
                )
            } else {
                of_kind(actions, k)
            },
{
    if cliargs.db.enabled {
        lemma_push(actions, with_entry(actions, cliargs, block_number, text, time, steps).last());
    }
}

/// A proved block is published once if metrics are enabled and its figures are
/// known: its figures, completed by those of the proof. They are then no longer
/// kept, those of other blocks are, and the block number gauge names the block.
/// Otherwise nothing changes.
pub proof fn law_success_is_published<S>(
    s: AppStateView<S>,
    actions: Seq<ActionView>,
    block_number: u64,
    time: u64,
    steps: u64,
    submit_time_ms: Option<i64>,
)
    ensures
        ({
            let (t, list) = success_published(
                s,
                actions,
                block_number,
                time,
                steps,
                submit_time_ms,
            );
            let publishes = s.cliargs.metrics.enabled && s.shared_metrics.contains_key(
                block_number,
            );
            let known = s.shared_metrics[block_number];
            &&& forall|k: Kind| #[trigger]
                of_kind(list, k) == if k is Publish && publishes {
                    of_kind(actions, k).push(
                        ActionView::Publish {
                            ops: proof_success(
                                s.latest_block,
                                BlockMetrics {
                                    block_number: known.block_number,
                                    received_time_ms: known.received_time_ms,
                                    time_to_input_ms: known.time_to_input_ms,
                                    mgas: known.mgas,
                                    tx_count: known.tx_count,
                                    timestamp: known.timestamp,
                                    proving_time_ms: Some(time as i64),
                                    proving_cycles: Some(steps as i64),
                                    submit_time_ms: if submit_time_ms is Some {
                                        submit_time_ms
                                    } else {
                                        known.submit_time_ms
                                    },
                                    success: true,
                                },
                                time,
                            ),
                        },
                    )
                } else {
                    of_kind(actions, k)
                }
            &&& publishes ==> t.latest_block == known.block_number as i64
            &&& publishes ==> !t.shared_metrics.contains_key(block_number)
            &&& forall|n: u64|
                publishes && n != block_number ==> (#[trigger] t.shared_metrics.contains_key(n)
                    <==> s.shared_metrics.contains_key(n)) && t.shared_metrics[n]
                    == s.shared_metrics[n]
            &&& !publishes ==> t == s
            &&& t.cliargs == s.cliargs
            &&& t.proving_block == s.proving_block
            &&& t.next_proving_block == s.next_proving_block
            &&& t.zisk_stdin == s.zisk_stdin
            &&& t.current_job_id == s.current_job_id
            &&& t.fired_alerts == s.fired_alerts
            &&& t.proved_blocks == s.proved_blocks
            &&& t.run_deadline == s.run_deadline
        }),
{
    let list = success_published(s, actions, block_number, time, steps, submit_time_ms).1;
    if s.cliargs.metrics.enabled && s.shared_metrics.contains_key(block_number) {
        lemma_push(actions, list.last());
    }
}

/// A failed block is published once if metrics are enabled, with its figures if
/// they are known. They are then no longer kept, those of other blocks are, and
/// the block number gauge names the block. Otherwise nothing changes.
pub proof fn law_failure_is_published<S>(
    s: AppStateView<S>,
    actions: Seq<ActionView>,
    block_number: u64,
)
    ensures
        ({
            let (t, list) = failure_published(s, actions, block_number);
            let known = s.shared_metrics.contains_key(block_number);
            let m = s.shared_metrics[block_number];
            &&& forall|k: Kind| #[trigger]
                of_kind(list, k) == if k is Publish && s.cliargs.metrics.enabled {
                    of_kind(actions, k).push(
                        ActionView::Publish {
                            ops: if known {
                                proof_failure(s.latest_block, m.block_number, Some(m))
                            } else {
                                proof_failure(s.latest_block, block_number, None)
                            },
                        },
                    )
                } else {
                    of_kind(actions, k)
                }
            &&& s.cliargs.metrics.enabled ==> t.latest_block == (if known {
                m.block_number
            } else {
                block_number
            }) as i64
            &&& s.cliargs.metrics.enabled ==> !t.shared_metrics.contains_key(block_number)
            &&& forall|n: u64|
                s.cliargs.metrics.enabled && n != block_number ==> (
                #[trigger] t.shared_metrics.contains_key(n) <==> s.shared_metrics.contains_key(n))
                    && t.shared_metrics[n] == s.shared_metrics[n]
            &&& !s.cliargs.metrics.enabled ==> t == s
            &&& t.cliargs == s.cliargs
            &&& t.proving_block == s.proving_block
            &&& t.next_proving_block == s.next_proving_block
            &&& t.zisk_stdin == s.zisk_stdin
            &&& t.current_job_id == s.current_job_id
            &&& t.fired_alerts == s.fired_alerts
            &&& t.proved_blocks == s.proved_blocks
            &&& t.run_deadline == s.run_deadline
        }),
{
    let list = failure_published(s, actions, block_number).1;
    if s.cliargs.metrics.enabled {
        lemma_push(actions, list.last());
    }
}

/// A block whose input has arrived is noted with its own figures if metrics are
/// enabled, under its number, without touching those of other blocks or anything
/// else. Its time to the input counts from its timestamp in seconds.
pub proof fn law_input_is_noted<S>(
    s: AppStateView<S>,
    block: BlockInfoView,
    input_time_ms: u128,
    now_ms: Option<u128>,
)
    ensures
        ({
            let t = input_noted(s, block, input_time_ms, now_ms);
            let m = t.shared_metrics[block.block_number];
            &&& s.cliargs.metrics.enabled ==> {
                &&& t.shared_metrics.contains_key(block.block_number)
                &&& m.block_number == block.block_number
                &&& m.received_time_ms == input_time_ms as i64
                &&& m.time_to_input_ms == (match now_ms {
                    Some(now) => now - 1000 * block.timestamp,
                    None => 0,
                }) as i64
                &&& m.mgas == block.mgas
                &&& m.tx_count == block.tx_count
                &&& m.timestamp == block.timestamp as i64
                &&& m.proving_time_ms is None
                &&& m.proving_cycles is None
                &&& m.submit_time_ms is None
                &&& !m.success
            }
            &&& forall|n: u64|
                n != block.block_number ==> (#[trigger] t.shared_metrics.contains_key(n)
                    <==> s.shared_metrics.contains_key(n)) && t.shared_metrics[n]
                    == s.shared_metrics[n]
            &&& !s.cliargs.metrics.enabled ==> t == s
            &&& t.cliargs == s.cliargs
            &&& t.proving_block == s.proving_block
            &&& t.next_proving_block == s.next_proving_block
            &&& t.zisk_stdin == s.zisk_stdin
            &&& t.current_job_id == s.current_job_id
            &&& t.fired_alerts == s.fired_alerts
            &&& t.latest_block == s.latest_block
            &&& t.proved_blocks == s.proved_blocks
            &&& t.run_deadline == s.run_deadline
        }),
{
}

/// The place of a kind of action in a list: files and reports first, then
/// storage, alerts and metrics, and the end of the program last.
pub open spec fn rank(k: Kind) -> int {
    match k {
        Kind::ReportQueued => 0,
        Kind::ReportProving => 1,
        Kind::RunHook => 2,
        Kind::WriteCsv => 3,
        Kind::SaveProof => 4,
        Kind::ReportProved => 5,
        Kind::InsertProof => 6,
        Kind::SendAlert => 7,
        Kind::Publish => 8,
        Kind::DeleteInput => 9,
        Kind::NotifyProofDone => 10,
        Kind::AwaitAlert => 11,
        Kind::LogSummary => 12,
        Kind::Panic => 13,
        Kind::Exit => 14,
    }
}

/// Whether no kind of action occurs twice, and the kinds come in their order.
pub open spec fn in_order(actions: Seq<ActionView>) -> bool {
    forall|i: int, j: int|
        0 <= i < j < actions.len() ==> rank(kind(#[trigger] actions[i])) < rank(
            kind(#[trigger] actions[j]),
        )
}

spec fn ends_before(actions: Seq<ActionView>, place: int) -> bool {
    in_order(actions) && forall|i: int|
        0 <= i < actions.len() ==> rank(kind(#[trigger] actions[i])) < place
}

proof fn lemma_ends(actions: Seq<ActionView>, action: ActionView, place: int)
    requires
        ends_before(actions, rank(kind(action))),
    ensures
        rank(kind(action)) < place ==> ends_before(actions.push(action), place),
        rank(kind(action)) < place ==> ends_before(actions, place),
{
}

proof fn lemma_empty()
    ensures
        forall|k: Kind| #[trigger] of_kind(Seq::empty(), k) == Seq::<ActionView>::empty(),
        forall|place: int| #[trigger] ends_before(Seq::empty(), place),
{
}

/// What a block queued behind the one being proved makes the client do. The
/// blocks between the two are skipped. From the threshold on, an alert that is
/// not out yet is sent; over it the script runs on the block being proved and its
/// job, and the client panics if so configured, once an alert just sent has been
/// handled. Below the threshold an alert that is out is taken back. Nothing else
/// is done.
pub proof fn law_queueing<S>(s: AppStateView<S>, block: BlockInfoView)
    requires
        s.proving_block is Some,
        block.block_number >= s.proving_block->0.block_number,
    ensures
        ({
            let (t, list) = block_queued(s, block);
            let p = s.proving_block->0.block_number;
            let skipped = block.block_number - p - 1;
            let limit = s.cliargs.skipped.threshold;
            let alerted = s.cliargs.telegram.alert@.contains(TelegramEvent::SkippedThreshold);
            let out = s.fired_alerts.skipped;
            let none = Seq::<ActionView>::empty();
            &&& of_kind(list, Kind::SendAlert) == if skipped >= limit && !out && alerted {
                seq![
                    ActionView::SendAlert {
                        alert: AlertView {
                            message: "Skipped "@ + decimal(skipped as nat)
                                + " consecutive blocks. Currently proving block "@ + decimal(
                                p as nat,
                            ) + ", next queued block is "@ + decimal(block.block_number as nat)
                                + "."@,
                            alert_type: AlertType::Warning,
                        },
                    },
                ]
            } else if skipped < limit && out && alerted {
                seq![
                    ActionView::SendAlert {
                        alert: AlertView {
                            message: "Resumed proving. Now proving block "@ + decimal(p as nat)
                                + "."@,
                            alert_type: AlertType::Info,
                        },
                    },
                ]
            } else {
                none
            }
            &&& of_kind(list, Kind::RunHook) == if skipped > limit
                && s.cliargs.hooks.blocks_skipped is Some {
                seq![
                    ActionView::RunHook {
                        script: s.cliargs.hooks.blocks_skipped->0@,
                        args: seq![decimal(p as nat), s.current_job_id],
                    },
                ]
            } else {
                none
            }
            &&& of_kind(list, Kind::Panic) == if skipped > limit && s.cliargs.skipped.panic {
                seq![
                    ActionView::Panic {
                        message: "Skipped blocks exceeded threshold, panicking as per configuration"@,
                    },
                ]
            } else {
                none
            }
            &&& of_kind(list, Kind::AwaitAlert) == if skipped > limit && s.cliargs.skipped.panic
                && !out && alerted {
                seq![ActionView::AwaitAlert]
            } else {
                none
            }
            &&& forall|k: Kind|
                !(k is SendAlert || k is RunHook || k is Panic || k is AwaitAlert)
                    ==> #[trigger] of_kind(list, k) == none
            &&& in_order(list)
            &&& t.next_proving_block == Some(block)
            &&& t.fired_alerts.skipped == (skipped >= limit && (out || alerted))
            &&& t.fired_alerts.failed == s.fired_alerts.failed
            &&& t.cliargs == s.cliargs
            &&& t.proving_block == s.proving_block
            &&& t.zisk_stdin == s.zisk_stdin
            &&& t.current_job_id == s.current_job_id
            &&& t.shared_metrics == s.shared_metrics
            &&& t.latest_block == s.latest_block
            &&& t.proved_blocks == s.proved_blocks
            &&& t.run_deadline == s.run_deadline
        }),
{
    lemma_empty();
    let p = s.proving_block->0.block_number;
    let distance = block.block_number - p;
    let over = distance - 1 > s.cliargs.skipped.threshold;
    let script = s.cliargs.hooks.blocks_skipped;
    let nothing = Seq::<ActionView>::empty();
    let hooked = if over {
        with_hook(nothing, script, p, s.current_job_id)
    } else {
        nothing
    };
    law_hook_runs_its_script(nothing, script, p, s.current_job_id);
    assert(ends_before(hooked, 3));
    let list = block_queued(s, block).1;
    if distance > s.cliargs.skipped.threshold {
        let alert = if s.fired_alerts.skipped {
            None
        } else {
            alert_for(
                s.cliargs,
                TelegramEvent::SkippedThreshold,
                crate::telegram::skipped_message(p, block.block_number, (distance - 1) as u64),
                AlertType::Warning,
            )
        };
        let sent = with_alert(hooked, alert);
        law_alert_is_sent(hooked, alert);
        lemma_alert_in_order(hooked, alert);
        if over && s.cliargs.skipped.panic {
            let panic = ActionView::Panic { message: crate::process::skipped_panic() };
            lemma_push(sent, ActionView::AwaitAlert);
            lemma_ends(sent, ActionView::AwaitAlert, 13);
            lemma_push(sent, panic);
            lemma_push(sent.push(ActionView::AwaitAlert), panic);
            if alert is Some {
                lemma_ends(sent.push(ActionView::AwaitAlert), panic, 14);
                assert(list == sent.push(ActionView::AwaitAlert).push(panic));
            } else {
                lemma_ends(sent, panic, 14);
                assert(list == sent.push(panic));
            }
        } else {
            assert(list == sent);
        }
    } else if s.fired_alerts.skipped {
        let alert = alert_for(
            s.cliargs,
            TelegramEvent::SkippedThreshold,
            crate::telegram::resumed_message(p),
            AlertType::Info,
        );
        law_alert_is_sent(nothing, alert);
        lemma_alert_in_order(nothing, alert);
    }
}

proof fn lemma_alert_in_order(actions: Seq<ActionView>, alert: Option<AlertView>)
    requires
        ends_before(actions, 7),
    ensures
        ends_before(with_alert(actions, alert), 8),
        ends_before(with_alert(actions, alert), 11),
        ends_before(with_alert(actions, alert), 13),
{
}

/// What the launch of a new block's proof makes the client do. With a job the
/// block is the one being proved under that job, and an alert of a failure that
/// is out is taken back. Without one the script runs on the block and the job of
/// before, an alert that is not out yet is sent, and the block is not being
/// proved. Nothing else is done.
pub proof fn law_launching<S>(
    s: AppStateView<S>,
    block: BlockInfoView,
    result: Result<Seq<char>, Seq<char>>,
)
    ensures
        ({
            let (t, list) = proof_launched(s, block, result);
            let alerted = s.cliargs.telegram.alert@.contains(TelegramEvent::ProofFailed);
            let out = s.fired_alerts.failed;
            let none = Seq::<ActionView>::empty();
            &&& of_kind(list, Kind::SendAlert) == if result is Ok && out && alerted {
                seq![
                    ActionView::SendAlert {
                        alert: AlertView {
                            message: "Resumed proving. Now proving block "@ + decimal(
                                block.block_number as nat,
                            ) + "."@,
                            alert_type: AlertType::Info,
                        },
                    },
                ]
            } else if result is Err && !out && alerted {
                seq![
                    ActionView::SendAlert {
                        alert: AlertView {
                            message: "Proof generation failed for block "@ + decimal(
                                block.block_number as nat,
                            ) + ", error: "@ + result->Err_0,
                            alert_type: AlertType::Error,
                        },
                    },
                ]
            } else {
                none
            }
            &&& of_kind(list, Kind::RunHook) == if result is Err
                && s.cliargs.hooks.proof_failed is Some {
                seq![
                    ActionView::RunHook {
                        script: s.cliargs.hooks.proof_failed->0@,
                        args: seq![decimal(block.block_number as nat), s.current_job_id],
                    },
                ]
            } else {
                none
            }
            &&& forall|k: Kind|
                !(k is SendAlert || k is RunHook) ==> #[trigger] of_kind(list, k) == none
            &&& in_order(list)
            &&& t.proving_block == if result is Ok {
                Some(block)
            } else {
                s.proving_block
            }
            &&& t.current_job_id == if result is Ok {
                result->Ok_0
            } else {
                s.current_job_id
            }
            &&& t.fired_alerts.failed == (result is Err && (out || alerted))
            &&& t.fired_alerts.skipped == s.fired_alerts.skipped
            &&& t.cliargs == s.cliargs
            &&& t.next_proving_block == s.next_proving_block
            &&& t.zisk_stdin == s.zisk_stdin
            &&& t.shared_metrics == s.shared_metrics
            &&& t.latest_block == s.latest_block
            &&& t.proved_blocks == s.proved_blocks
            &&& t.run_deadline == s.run_deadline
        }),
{
    lemma_empty();
    let nothing = Seq::<ActionView>::empty();
    let n = block.block_number;
    let script = s.cliargs.hooks.proof_failed;
    match result {
        Ok(_) => {
            let alert = alert_for(
                s.cliargs,
                TelegramEvent::ProofFailed,
                crate::telegram::resumed_message(n),
                AlertType::Info,
            );
            law_alert_is_sent(nothing, alert);
            lemma_alert_in_order(nothing, alert);
        },
        Err(error) => {
            let hooked = with_hook(nothing, script, n, s.current_job_id);
            law_hook_runs_its_script(nothing, script, n, s.current_job_id);
            let alert = if s.fired_alerts.failed {
                None
            } else {
                alert_for(
                    s.cliargs,
                    TelegramEvent::ProofFailed,
                    crate::process::launch_failed_message(n, error),
                    AlertType::Error,
                )
            };
            assert(ends_before(hooked, 7));
            law_alert_is_sent(hooked, alert);
            lemma_alert_in_order(hooked, alert);
        },
    }
}

/// What the launch of a queued block's proof makes the client do. With a job
/// only the job is noted. Without one no block is being proved any more, the
/// script runs on the block if asked for, an alert is sent, and the block's input
/// is deleted unless inputs are kept. Nothing else is done.
pub proof fn law_launching_next<S>(
    s: AppStateView<S>,
    next: BlockInfoView,
    result: Result<Seq<char>, Seq<char>>,
    hook: bool,
)
    ensures
        ({
            let (t, list) = next_launched(s, next, result, hook);
            let none = Seq::<ActionView>::empty();
            &&& of_kind(list, Kind::SendAlert) == if result is Err
                && s.cliargs.telegram.alert@.contains(TelegramEvent::ProofFailed) {
                seq![
                    ActionView::SendAlert {
                        alert: AlertView {
                            message: "Proof generation failed for next block "@ + decimal(
                                next.block_number as nat,
                            ) + ", error: "@ + result->Err_0,
                            alert_type: AlertType::Error,
                        },
                    },
                ]
            } else {
                none
            }
            &&& of_kind(list, Kind::RunHook) == if result is Err && hook
                && s.cliargs.hooks.proof_failed is Some {
                seq![
                    ActionView::RunHook {
                        script: s.cliargs.hooks.proof_failed->0@,
                        args: seq![decimal(next.block_number as nat), s.current_job_id],
                    },
                ]
            } else {
                none
            }
            &&& of_kind(list, Kind::DeleteInput) == if result is Err && !s.cliargs.inputs.keep {
                seq![
                    ActionView::DeleteInput {
                        path: s.cliargs.inputs.folder@ + "/"@ + next.filename(),
                    },
                ]
            } else {
                none
            }
            &&& forall|k: Kind|
                !(k is SendAlert || k is RunHook || k is DeleteInput) ==> #[trigger] of_kind(
                    list,
                    k,
                ) == none
            &&& in_order(list)
            &&& t.proving_block == if result is Ok {
                s.proving_block
            } else {
                None
            }
            &&& t.current_job_id == if result is Ok {
                result->Ok_0
            } else {
                s.current_job_id
            }
            &&& t.cliargs == s.cliargs
            &&& t.next_proving_block == s.next_proving_block
            &&& t.zisk_stdin == s.zisk_stdin
            &&& t.fired_alerts == s.fired_alerts
            &&& t.shared_metrics == s.shared_metrics
            &&& t.latest_block == s.latest_block
            &&& t.proved_blocks == s.proved_blocks
            &&& t.run_deadline == s.run_deadline
        }),
{
    lemma_empty();
    let nothing = Seq::<ActionView>::empty();
    let n = next.block_number;
    let script = s.cliargs.hooks.proof_failed;
    if let Err(error) = result {
        let hooked = if hook {
            with_hook(nothing, script, n, s.current_job_id)
        } else {
            nothing
        };
        law_hook_runs_its_script(nothing, script, n, s.current_job_id);
        let alert = alert_for(
            s.cliargs,
            TelegramEvent::ProofFailed,
            crate::prove::next_failed_message(n, error),
            AlertType::Error,
        );
        assert(ends_before(hooked, 7));
        law_alert_is_sent(hooked, alert);
        lemma_alert_in_order(hooked, alert);
        law_input_is_deleted(with_alert(hooked, alert), s.cliargs, next);
        assert(ends_before(with_deletion(with_alert(hooked, alert), s.cliargs, next), 10));
    }
}

/// What the return of a block's proof makes the client do. If proofs are
/// submitted, it reports exactly once, with the number of that block and the
/// configured cluster, whatever is queued behind it; otherwise it reports nothing.
/// The end of the proof is signalled exactly if no block follows: none is queued,
/// or the run time is over. The block that follows is the queued one. Nothing else
/// is done.
pub proof fn law_returning<S>(s: AppStateView<S>, block_number: u64, past_deadline: bool)
    requires
        s.cliargs.ethproofs.submit ==> s.cliargs.ethproofs.cluster_id is Some,
    ensures
        ({
            let list = returned_actions(s, block_number, past_deadline);
            let t = queue_advanced(s, past_deadline);
            let none = Seq::<ActionView>::empty();
            &&& of_kind(list, Kind::ReportProving) == if s.cliargs.ethproofs.submit {
                seq![
                    ActionView::ReportProving {
                        cluster_id: s.cliargs.ethproofs.cluster_id->0,
                        block_number,
                    },
                ]
            } else {
                none
            }
            &&& of_kind(list, Kind::NotifyProofDone) == if past_deadline
                || s.next_proving_block is None {
                seq![ActionView::NotifyProofDone]
            } else {
                none
            }
            &&& forall|k: Kind|
                !(k is ReportProving || k is NotifyProofDone) ==> #[trigger] of_kind(list, k)
                    == none
            &&& in_order(list)
            &&& past_deadline ==> t.proving_block is None
            &&& !past_deadline ==> t.proving_block == s.next_proving_block
            &&& t.next_proving_block is None
            &&& t.cliargs == s.cliargs
            &&& t.zisk_stdin == s.zisk_stdin
            &&& t.current_job_id == s.current_job_id
            &&& t.fired_alerts == s.fired_alerts
            &&& t.shared_metrics == s.shared_metrics
            &&& t.latest_block == s.latest_block
            &&& t.proved_blocks == s.proved_blocks
            &&& t.run_deadline == s.run_deadline
        }),
{
    lemma_empty();
    let nothing = Seq::<ActionView>::empty();
    let report = ActionView::ReportProving {
        cluster_id: s.cliargs.ethproofs.cluster_id->0,
        block_number,
    };
    lemma_push(nothing, report);
    lemma_push(nothing, ActionView::NotifyProofDone);
    lemma_push(nothing.push(report), ActionView::NotifyProofDone);
    assert(seq![report] =~= nothing.push(report));
}

/// Whether a proof has a text that fits in memory: its words are there, and four
/// characters for every three of their bytes are not too many.
pub open spec fn has_text(result: ProveResult) -> bool {
    result.proof is Some && (8 * result.proof->0@.len() + 2) / 3 * 4 <= isize::MAX
}

/// Whether bytes hold the words of a proof: eight for each, in order, from which
/// every word reads back.
pub open spec fn hold_words(bytes: Seq<u8>, words: Seq<u64>) -> bool {
    &&& bytes.len() == 8 * words.len()
    &&& forall|i: int|
        0 <= i < words.len() ==> le_value(bytes.subrange(8 * i, 8 * i + 8)) == #[trigger] words[i]
}

proof fn lemma_words_held(words: Seq<u64>)
    ensures
        hold_words(words_le(words), words),
        words_le(words).len() == 8 * words.len(),
        base64_bytes(base64_standard(words_le(words))) == words_le(words),
        base64_standard(words_le(words)).len() == (8 * words.len() + 2) / 3 * 4,
{
    lemma_words_le_len(words);
    law_base64_decodes(words_le(words));
    assert forall|i: int| 0 <= i < words.len() implies le_value(
        words_le(words).subrange(8 * i, 8 * i + 8),
    ) == #[trigger] words[i] by {
        law_proof_bytes_hold_every_word(words, i);
    }
}

/// What a proof makes the client submit, save and store: the whole of it. If
/// proofs are submitted and the text fits in memory, there is exactly one
/// submission, of the block with its time, steps and job, and its text decodes to
/// bytes from which every word reads back. The same holds of the entry for the
/// database, and of the bytes in the file of the proof. Otherwise there is no
/// submission, no entry, no file.
pub proof fn law_whole_proof_is_handed_on<S>(
    s: AppStateView<S>,
    block: BlockInfoView,
    proof_start_ts: Seq<char>,
    result: ProveResult,
)
    requires
        s.cliargs.ethproofs.submit ==> s.cliargs.ethproofs.cluster_id is Some,
    ensures
        ({
            let list = proof_succeeded(s, block, proof_start_ts, result).1;
            let reports = of_kind(list, Kind::ReportProved);
            let entries = of_kind(list, Kind::InsertProof);
            let files = of_kind(list, Kind::SaveProof);
            let words = result.proof->0@;
            &&& if has_text(result) && s.cliargs.ethproofs.submit {
                &&& reports.len() == 1
                &&& reports[0] matches ActionView::ReportProved {
                    cluster_id,
                    block_number,
                    proving_time_ms,
                    proving_cycles,
                    proof: text,
                    job_id,
                } && {
                    &&& Some(cluster_id) == s.cliargs.ethproofs.cluster_id
                    &&& block_number == block.block_number
                    &&& proving_time_ms == result.proving_time_ms
                    &&& proving_cycles == result.proving_cycles
                    &&& text.len() == (8 * words.len() + 2) / 3 * 4
                    &&& base64_bytes(text) == words_le(words)
                    &&& hold_words(base64_bytes(text), words)
                    &&& job_id == if result.job_id is Some {
                        result.job_id->0@
                    } else {
                        "N/A"@
                    }
                }
            } else {
                reports.len() == 0
            }
            &&& if has_text(result) && s.cliargs.db.enabled {
                &&& entries.len() == 1
                &&& entries[0] matches ActionView::InsertProof { entry } && {
                    &&& entry.block_number == block.block_number
                    &&& entry.zisk_version == setting(s.cliargs.db.zisk_version)
                    &&& entry.hardware == setting(s.cliargs.db.hardware)
                    &&& base64_bytes(entry.proof) == words_le(words)
                    &&& hold_words(base64_bytes(entry.proof), words)
                    &&& entry.proving_time == result.proving_time_ms as u32
                    &&& entry.steps == result.proving_cycles
                }
            } else {
                entries.len() == 0
            }
            &&& if result.proof is Some && s.cliargs.proof.save {
                &&& files.len() == 1
                &&& files[0] matches ActionView::SaveProof { folder, filename, bytes } && {
                    &&& folder == s.cliargs.proof.folder@
                    &&& filename == decimal(block.block_number as nat) + "_proof.bin"@
                    &&& bytes == words_le(words)
                    &&& hold_words(bytes, words)
                }
            } else {
                files.len() == 0
            }
        }),
{
    if let Some(words) = result.proof {
        lemma_words_held(words@);
    }
    lemma_succeeded(s, block, proof_start_ts, result);
}

/// What else a proof makes the client do. It is always counted, and recorded if
/// there is a file of proved blocks. A proof whose text fits in memory is alerted,
/// published if the figures of its block are known, and the block's input is
/// deleted unless inputs are kept. Nothing else is done, and nothing else changes.
pub proof fn law_proving<S>(
    s: AppStateView<S>,
    block: BlockInfoView,
    proof_start_ts: Seq<char>,
    result: ProveResult,
)
    ensures
        ({
            let (t, list) = proof_succeeded(s, block, proof_start_ts, result);
            let n = block.block_number;
            let none = Seq::<ActionView>::empty();
            let publishes = has_text(result) && s.cliargs.metrics.enabled
                && s.shared_metrics.contains_key(n);
            let known = s.shared_metrics[n];
            &&& of_kind(list, Kind::WriteCsv) == if s.cliargs.proof.csv is Some {
                seq![
                    ActionView::WriteCsv {
                        row: proof_start_ts + ","@ + decimal(n as nat) + ","@ + decimal(
                            block.mgas as nat,
                        ) + ","@ + decimal(block.tx_count as nat) + ","@ + decimal(
                            result.proving_cycles as nat,
                        ) + ","@ + decimal(result.proving_time_ms as nat),
                    },
                ]
            } else {
                none
            }
            &&& of_kind(list, Kind::SendAlert) == if has_text(result)
                && s.cliargs.telegram.alert@.contains(TelegramEvent::BlockProved) {
                seq![
                    ActionView::SendAlert {
                        alert: AlertView {
                            message: "Proof generated for block "@ + decimal(n as nat)
                                + ", proving_time: "@ + decimal(
                                (result.proving_time_ms / 1000) as nat,
                            ) + "s, cycles: "@ + decimal(result.proving_cycles as nat),
                            alert_type: AlertType::Success,
                        },
                    },
                ]
            } else {
                none
            }
            &&& of_kind(list, Kind::Publish) == if publishes {
                seq![
                    ActionView::Publish {
                        ops: proof_success(
                            s.latest_block,
                            BlockMetrics {
                                block_number: known.block_number,
                                received_time_ms: known.received_time_ms,
                                time_to_input_ms: known.time_to_input_ms,
                                mgas: known.mgas,
                                tx_count: known.tx_count,
                                timestamp: known.timestamp,
                                proving_time_ms: Some(result.proving_time_ms as i64),
                                proving_cycles: Some(result.proving_cycles as i64),
                                submit_time_ms: known.submit_time_ms,
                                success: true,
                            },
                            result.proving_time_ms,
                        ),
                    },
                ]
            } else {
                none
            }
            &&& of_kind(list, Kind::DeleteInput) == if has_text(result) && !s.cliargs.inputs.keep {
                seq![
                    ActionView::DeleteInput {
                        path: s.cliargs.inputs.folder@ + "/"@ + block.filename(),
                    },
                ]
            } else {
                none
            }
            &&& forall|k: Kind|
                k is ReportQueued || k is ReportProving || k is RunHook || k is AwaitAlert
                    || k is NotifyProofDone || k is LogSummary || k is Panic || k is Exit
                    ==> #[trigger] of_kind(list, k) == none
            &&& in_order(list)
            &&& t.proved_blocks == if s.proved_blocks < u64::MAX {
                s.proved_blocks + 1
            } else {
                0
            }
            &&& t.latest_block == if publishes {
                known.block_number as i64
            } else {
                s.latest_block
            }
            &&& !publishes ==> t.shared_metrics == s.shared_metrics
            &&& forall|m: u64|
                publishes ==> (#[trigger] t.shared_metrics.contains_key(m)
                    <==> s.shared_metrics.contains_key(m) && m != n)
            &&& forall|m: u64|
                publishes && m != n ==> #[trigger] t.shared_metrics[m] == s.shared_metrics[m]
            &&& t.cliargs == s.cliargs
            &&& t.proving_block == s.proving_block
            &&& t.next_proving_block == s.next_proving_block
            &&& t.zisk_stdin == s.zisk_stdin
            &&& t.current_job_id == s.current_job_id
            &&& t.fired_alerts == s.fired_alerts
            &&& t.run_deadline == s.run_deadline
        }),
{
    if let Some(words) = result.proof {
        lemma_words_held(words@);
    }
    lemma_succeeded(s, block, proof_start_ts, result);
}

proof fn lemma_succeeded<S>(
    s: AppStateView<S>,
    block: BlockInfoView,
    proof_start_ts: Seq<char>,
    result: ProveResult,
)
    ensures
        ({
            let list = proof_succeeded(s, block, proof_start_ts, result).1;
            let n = block.block_number;
            let none = Seq::<ActionView>::empty();
            let bytes = words_le(result.proof->0@);
            let goes_on = result.proof is Some && encodable(bytes.len());
            let publishes = goes_on && s.cliargs.metrics.enabled && s.shared_metrics.contains_key(
                n,
            );
            forall|k: Kind| #[trigger]
                of_kind(list, k) == match k {
                    Kind::WriteCsv => if s.cliargs.proof.csv is Some {
                        none.push(
                            ActionView::WriteCsv {
                                row: csv_row(
                                    proof_start_ts,
                                    n,
                                    block.mgas,
                                    block.tx_count,
                                    result.proving_cycles,
                                    result.proving_time_ms,
                                ),
                            },
                        )
                    } else {
                        none
                    },
                    Kind::SaveProof => if result.proof is Some && s.cliargs.proof.save {
                        none.push(
                            ActionView::SaveProof {
                                folder: s.cliargs.proof.folder@,
                                filename: crate::prove::proof_filename(n),
                                bytes,
                            },
                        )
                    } else {
                        none
                    },
                    Kind::ReportProved => if goes_on && s.cliargs.ethproofs.submit {
                        none.push(
                            ActionView::ReportProved {
                                cluster_id: s.cliargs.ethproofs.cluster_id->0,
                                block_number: n,
                                proving_time_ms: result.proving_time_ms as u128,
                                proving_cycles: result.proving_cycles,
                                proof: base64_standard(bytes),
                                job_id: crate::prove::shown_job(result.job_id),
                            },
                        )
                    } else {
                        none
                    },
                    Kind::InsertProof => if goes_on && s.cliargs.db.enabled {
                        none.push(
                            ActionView::InsertProof {
                                entry: proof_entry(
                                    s.cliargs,
                                    n,
                                    base64_standard(bytes),
                                    result.proving_time_ms,
                                    result.proving_cycles,
                                ),
                            },
                        )
                    } else {
                        none
                    },
                    Kind::SendAlert => if goes_on && s.cliargs.alerts(TelegramEvent::BlockProved) {
                        none.push(
                            ActionView::SendAlert {
                                alert: AlertView {
                                    message: crate::telegram::block_proved_message(
                                        n,
                                        result.proving_time_ms,
                                        result.proving_cycles,
                                    ),
                                    alert_type: AlertType::Success,
                                },
                            },
                        )
                    } else {
                        none
                    },
                    Kind::Publish => if publishes {
                        none.push(
                            ActionView::Publish {
                                ops: proof_success(
                                    s.latest_block,
                                    crate::prove::completed_metrics(
                                        s.shared_metrics[n],
                                        result.proving_time_ms,
                                        result.proving_cycles,
                                        None,
                                    ),
                                    result.proving_time_ms,
                                ),
                            },
                        )
                    } else {
                        none
                    },
                    Kind::DeleteInput => if goes_on && !s.cliargs.inputs.keep {
                        none.push(
                            ActionView::DeleteInput {
                                path: crate::state::input_path(s.cliargs, block.filename()),
                            },
                        )
                    } else {
                        none
                    },
                    _ => none,
                }
        }),
        in_order(proof_succeeded(s, block, proof_start_ts, result).1),
{
    lemma_empty();
    let list = proof_succeeded(s, block, proof_start_ts, result).1;
    let n = block.block_number;
    let time = result.proving_time_ms;
    let cycles = result.proving_cycles;
    let nothing = Seq::<ActionView>::empty();
    let counted = AppStateView { proved_blocks: s.proved_blocks.wrapping_add(1), ..s };
    let row = ActionView::WriteCsv {
        row: csv_row(proof_start_ts, n, block.mgas, block.tx_count, cycles, time),
    };
    lemma_push(nothing, row);
    lemma_ends(nothing, row, 4);
    assert(seq![row] =~= nothing.push(row));
    let recorded = if s.cliargs.proof.csv is Some {
        nothing.push(row)
    } else {
        nothing
    };
    assert(ends_before(recorded, 4));
    match result.proof {
        None => {
            assert(list == recorded);
        },
        Some(words) => {
            let bytes = words_le(words@);
            let file = ActionView::SaveProof {
                folder: s.cliargs.proof.folder@,
                filename: crate::prove::proof_filename(n),
                bytes,
            };
            lemma_push(recorded, file);
            lemma_ends(recorded, file, 5);
            let saved = if s.cliargs.proof.save {
                recorded.push(file)
            } else {
                recorded
            };
            assert(ends_before(saved, 5));
            if encodable(bytes.len()) {
                let text = base64_standard(bytes);
                let report = ActionView::ReportProved {
                    cluster_id: s.cliargs.ethproofs.cluster_id->0,
                    block_number: n,
                    proving_time_ms: time as u128,
                    proving_cycles: cycles,
                    proof: text,
                    job_id: crate::prove::shown_job(result.job_id),
                };
                lemma_push(saved, report);
                lemma_ends(saved, report, 6);
                let submitted = if s.cliargs.ethproofs.submit {
                    saved.push(report)
                } else {
                    saved
                };
                assert(ends_before(submitted, 6));
                lemma_stored(counted, block, submitted, text, time, cycles, None);
            } else {
                assert(list == saved);
            }
        },
    }
}

proof fn lemma_stored<S>(
    s: AppStateView<S>,
    block: BlockInfoView,
    before: Seq<ActionView>,
    text: Seq<char>,
    time: u64,
    cycles: u64,
    submit_time_ms: Option<i64>,
)
    requires
        ends_before(before, 6),
    ensures
        ({
            let n = block.block_number;
            let stored = with_entry(before, s.cliargs, n, text, time, cycles);
            let message = crate::telegram::block_proved_message(n, time, cycles);
            let alert = alert_for(
                s.cliargs,
                TelegramEvent::BlockProved,
                message,
                AlertType::Success,
            );
            let ops = success_published(
                s,
                with_alert(stored, alert),
                n,
                time,
                cycles,
                submit_time_ms,
            ).1;
            let list = with_deletion(ops, s.cliargs, block);
            let publishes = s.cliargs.metrics.enabled && s.shared_metrics.contains_key(n);
            &&& ends_before(list, 10)
            &&& forall|k: Kind| #[trigger]
                of_kind(list, k) == match k {
                    Kind::InsertProof => if s.cliargs.db.enabled {
                        of_kind(before, k).push(
                            ActionView::InsertProof {
                                entry: proof_entry(s.cliargs, n, text, time, cycles),
                            },
                        )
                    } else {
                        of_kind(before, k)
                    },
                    Kind::SendAlert => if s.cliargs.alerts(TelegramEvent::BlockProved) {
                        of_kind(before, k).push(
                            ActionView::SendAlert {
                                alert: AlertView { message, alert_type: AlertType::Success },
                            },
                        )
                    } else {
                        of_kind(before, k)
                    },
                    Kind::Publish => if publishes {
                        of_kind(before, k).push(
                            ActionView::Publish {
                                ops: proof_success(
                                    s.latest_block,
                                    crate::prove::completed_metrics(
                                        s.shared_metrics[n],
                                        time,
                                        cycles,
                                        submit_time_ms,
                                    ),
                                    time,
                                ),
                            },
                        )
                    } else {
                        of_kind(before, k)
                    },
                    Kind::DeleteInput => if !s.cliargs.inputs.keep {
                        of_kind(before, k).push(
                            ActionView::DeleteInput {
                                path: crate::state::input_path(s.cliargs, block.filename()),
                            },
                        )
                    } else {
                        of_kind(before, k)
                    },
                    _ => of_kind(before, k),
                }
        }),
{
    let n = block.block_number;
    let stored = with_entry(before, s.cliargs, n, text, time, cycles);
    law_proof_is_stored(before, s.cliargs, n, text, time, cycles);
    assert(ends_before(stored, 7));
    let alert = alert_for(
        s.cliargs,
        TelegramEvent::BlockProved,
        crate::telegram::block_proved_message(n, time, cycles),
        AlertType::Success,
    );
    let alerted = with_alert(stored, alert);
    law_alert_is_sent(stored, alert);
    lemma_alert_in_order(stored, alert);
    let ops = success_published(s, alerted, n, time, cycles, submit_time_ms).1;
    law_success_is_published(s, alerted, n, time, cycles, submit_time_ms);
    assert(ends_before(ops, 9));
    law_input_is_deleted(ops, s.cliargs, block);
    assert(ends_before(with_deletion(ops, s.cliargs, block), 10));
}

/// What a failed proof makes the client do: the script runs on the block and the
/// job of the proof, an alert is sent, and the failure is published. Exactly if
/// the client stops on errors, it logs how many blocks it proved and exits with
/// code one, once an alert just sent has been handled. Nothing else is done, and
/// only the metrics change.
pub proof fn law_failing<S>(
    s: AppStateView<S>,
    block_number: u64,
    error: Seq<char>,
    job_id: Seq<char>,
)
    ensures
        ({
            let (t, list) = proof_failed(s, block_number, error, job_id);
            let alerted = s.cliargs.telegram.alert@.contains(TelegramEvent::ProofFailed);
            let none = Seq::<ActionView>::empty();
            let known = s.shared_metrics.contains_key(block_number);
            let m = s.shared_metrics[block_number];
            &&& of_kind(list, Kind::RunHook) == if s.cliargs.hooks.proof_failed is Some {
                seq![
                    ActionView::RunHook {
                        script: s.cliargs.hooks.proof_failed->0@,
                        args: seq![decimal(block_number as nat), job_id],
                    },
                ]
            } else {
                none
            }
            &&& of_kind(list, Kind::SendAlert) == if alerted {
                seq![
                    ActionView::SendAlert {
                        alert: AlertView {
                            message: "Failed proof for block "@ + decimal(block_number as nat)
                                + ", error: "@ + error,
                            alert_type: AlertType::Error,
                        },
                    },
                ]
            } else {
                none
            }
            &&& of_kind(list, Kind::Publish) == if s.cliargs.metrics.enabled {
                seq![
                    ActionView::Publish {
                        ops: if known {
                            proof_failure(s.latest_block, m.block_number, Some(m))
                        } else {
                            proof_failure(s.latest_block, block_number, None)
                        },
                    },
                ]
            } else {
                none
            }
            &&& of_kind(list, Kind::AwaitAlert) == if s.cliargs.exit_on_error && alerted {
                seq![ActionView::AwaitAlert]
            } else {
                none
            }
            &&& of_kind(list, Kind::LogSummary) == if s.cliargs.exit_on_error {
                seq![
                    ActionView::LogSummary {
                        text: "Proved "@ + decimal(s.proved_blocks as nat)
                            + " block(s) successfully during this run"@,
                    },
                ]
            } else {
                none
            }
            &&& of_kind(list, Kind::Exit) == if s.cliargs.exit_on_error {
                seq![ActionView::Exit { code: 1 }]
            } else {
                none
            }
            &&& forall|k: Kind|
                k is ReportQueued || k is ReportProving || k is ReportProved || k is WriteCsv
                    || k is SaveProof || k is InsertProof || k is DeleteInput
                    || k is NotifyProofDone || k is Panic ==> #[trigger] of_kind(list, k) == none
            &&& in_order(list)
            &&& t.latest_block == if !s.cliargs.metrics.enabled {
                s.latest_block
            } else if known {
                m.block_number as i64
            } else {
                block_number as i64
            }
            &&& !s.cliargs.metrics.enabled ==> t.shared_metrics == s.shared_metrics
            &&& forall|n: u64|
                s.cliargs.metrics.enabled ==> (#[trigger] t.shared_metrics.contains_key(n)
                    <==> s.shared_metrics.contains_key(n) && n != block_number)
            &&& forall|n: u64|
                n != block_number ==> #[trigger] t.shared_metrics[n] == s.shared_metrics[n]
            &&& t.cliargs == s.cliargs
            &&& t.proving_block == s.proving_block
            &&& t.next_proving_block == s.next_proving_block
            &&& t.zisk_stdin == s.zisk_stdin
            &&& t.current_job_id == s.current_job_id
            &&& t.fired_alerts == s.fired_alerts
            &&& t.proved_blocks == s.proved_blocks
            &&& t.run_deadline == s.run_deadline
        }),
{
    lemma_empty();
    let nothing = Seq::<ActionView>::empty();
    let script = s.cliargs.hooks.proof_failed;
    let hooked = with_hook(nothing, script, block_number, job_id);
    law_hook_runs_its_script(nothing, script, block_number, job_id);
    assert(ends_before(hooked, 7));
    let alert = alert_for(
        s.cliargs,
        TelegramEvent::ProofFailed,
        crate::prove::proof_failed_message(block_number, error),
        AlertType::Error,
    );
    let sent = with_alert(hooked, alert);
    law_alert_is_sent(hooked, alert);
    lemma_alert_in_order(hooked, alert);
    let ops = failure_published(s, sent, block_number).1;
    law_failure_is_published(s, sent, block_number);
    assert(ends_before(ops, 11));
    let list = proof_failed(s, block_number, error, job_id).1;
    if s.cliargs.exit_on_error {
        let log = ActionView::LogSummary { text: crate::state::summary(s.proved_blocks) };
        let exit = ActionView::Exit { code: 1 };
        lemma_push(ops, ActionView::AwaitAlert);
        lemma_ends(ops, ActionView::AwaitAlert, 12);
        let awaited = if alert is Some {
            ops.push(ActionView::AwaitAlert)
        } else {
            ops
        };
        assert(ends_before(awaited, 12));
        lemma_push(awaited, log);
        lemma_ends(awaited, log, 14);
        lemma_push(awaited.push(log), exit);
        lemma_ends(awaited.push(log), exit, 15);
        assert(list == awaited.push(log).push(exit));
    }
}

/// What follows the result of a proof: exactly if the run time is over, the
/// client logs how many blocks it proved, then exits with code zero.
pub proof fn law_run_time_ends(deadline_reached: bool, proved_blocks: u64)
    ensures
        ({
            let list = processed_actions(deadline_reached, proved_blocks);
            &&& deadline_reached ==> {
                &&& list.len() == 2
                &&& list[0] == (ActionView::LogSummary {
                    text: "Proved "@ + decimal(proved_blocks as nat)
                        + " block(s) successfully during this run"@,
                })
                &&& list[1] == (ActionView::Exit { code: 0 })
            }
            &&& !deadline_reached ==> list.len() == 0
        }),
{
}

/// What a delivered failure makes the client do: an alert is sent that names the
/// block, the job, and the code and message of the error, and the failure is
/// published. Nothing else is done, and only the metrics change.
pub proof fn law_delivered_failure<S>(
    s: AppStateView<S>,
    block_number: u64,
    payload: WebhookPayload,
)
    ensures
        ({
            let (t, list) = webhook_failed(s, block_number, payload);
            let none = Seq::<ActionView>::empty();
            let known = s.shared_metrics.contains_key(block_number);
            let m = s.shared_metrics[block_number];
            &&& of_kind(list, Kind::SendAlert) == if s.cliargs.telegram.alert@.contains(
                TelegramEvent::ProofFailed,
            ) {
                seq![
                    ActionView::SendAlert {
                        alert: AlertView {
                            message: "Failed proof for block "@ + decimal(block_number as nat)
                                + ", job: "@ + payload.job_id@ + ", error: "@ + (
                            if payload.error is Some {
                                payload.error->0.code@
                            } else {
                                "0"@
                            }) + "-"@ + (if payload.error is Some {
                                payload.error->0.message@
                            } else {
                                "Unknown error"@
                            }),
                            alert_type: AlertType::Error,
                        },
                    },
                ]
            } else {
                none
            }
            &&& of_kind(list, Kind::Publish) == if s.cliargs.metrics.enabled {
                seq![
                    ActionView::Publish {
                        ops: if known {
                            proof_failure(s.latest_block, m.block_number, Some(m))
                        } else {
                            proof_failure(s.latest_block, block_number, None)
                        },
                    },
                ]
            } else {
                none
            }
            &&& forall|k: Kind|
                !(k is SendAlert || k is Publish) ==> #[trigger] of_kind(list, k) == none
            &&& in_order(list)
            &&& t.latest_block == if !s.cliargs.metrics.enabled {
                s.latest_block
            } else if known {
                m.block_number as i64
            } else {
                block_number as i64
            }
            &&& !s.cliargs.metrics.enabled ==> t.shared_metrics == s.shared_metrics
            &&& forall|n: u64|
                s.cliargs.metrics.enabled ==> (#[trigger] t.shared_metrics.contains_key(n)
                    <==> s.shared_metrics.contains_key(n) && n != block_number)
            &&& forall|n: u64|
                n != block_number ==> #[trigger] t.shared_metrics[n] == s.shared_metrics[n]
            &&& t.cliargs == s.cliargs
            &&& t.proving_block == s.proving_block
            &&& t.next_proving_block == s.next_proving_block
            &&& t.zisk_stdin == s.zisk_stdin
            &&& t.current_job_id == s.current_job_id
            &&& t.fired_alerts == s.fired_alerts
            &&& t.proved_blocks == s.proved_blocks
            &&& t.run_deadline == s.run_deadline
        }),
{
    lemma_empty();
    let nothing = Seq::<ActionView>::empty();
    let alert = alert_for(
        s.cliargs,
        TelegramEvent::ProofFailed,
        crate::webhook::webhook_failed_message(
            block_number,
            payload.job_id@,
            payload.error_text(),
        ),
        AlertType::Error,
    );
    let sent = with_alert(nothing, alert);
    law_alert_is_sent(nothing, alert);
    lemma_alert_in_order(nothing, alert);
    law_failure_is_published(s, sent, block_number);
    assert(ends_before(failure_published(s, sent, block_number).1, 11));
}

/// The submission of a delivered proof: there is one exactly if proofs are
/// submitted, of the block with the configured cluster, the whole text, the job,
/// the low 32 bits of the time and the steps, zero if they are not known.
pub proof fn law_delivered_submission<S>(
    s: AppStateView<S>,
    block_number: u64,
    payload: WebhookPayload,
    text: Seq<char>,
)
    requires
        s.cliargs.ethproofs.submit ==> s.cliargs.ethproofs.cluster_id is Some,
    ensures
        webhook_submission(s, block_number, payload, text) is Some <==> s.cliargs.ethproofs.submit,
        s.cliargs.ethproofs.submit ==> {
            &&& webhook_submission(s, block_number, payload, text)->0
                matches ActionView::ReportProved {
                cluster_id,
                block_number: n,
                proving_time_ms,
                proving_cycles,
                proof: submitted,
                job_id,
            }
            &&& Some(cluster_id) == s.cliargs.ethproofs.cluster_id
            &&& n == block_number
            &&& proving_time_ms == payload.duration_ms % 0x1_0000_0000
            &&& proving_cycles == if payload.executed_steps is Some {
                payload.executed_steps->0
            } else {
                0
            }
            &&& submitted == text
            &&& job_id == payload.job_id@
        },
{
    lemma_low_bits(payload.duration_ms);
}

proof fn lemma_low_bits(value: u64)
    ensures
        value as u32 as u64 == value % 0x1_0000_0000,
{
    assert(value as u32 as u64 == value % 0x1_0000_0000) by (bit_vector);
}

/// What a delivered proof makes the client do once its submission is handled: it
/// is stored with the whole text, alerted, published with the time of the
/// submission (zero if none succeeded), and the block's input is deleted unless
/// inputs are kept. Its time is the low 32 bits of the delivered one. Nothing else
/// is done, and only the metrics change.
pub proof fn law_delivered_proof<S>(
    s: AppStateView<S>,
    block: BlockInfoView,
    payload: WebhookPayload,
    text: Seq<char>,
    submit_time_ms: Option<i64>,
)
    ensures
        ({
            let (t, list) = webhook_stored(s, block, payload, text, submit_time_ms);
            let n = block.block_number;
            let time = (payload.duration_ms % 0x1_0000_0000) as u64;
            let steps = if payload.executed_steps is Some {
                payload.executed_steps->0
            } else {
                0
            };
            let none = Seq::<ActionView>::empty();
            let publishes = s.cliargs.metrics.enabled && s.shared_metrics.contains_key(n);
            let known = s.shared_metrics[n];
            &&& of_kind(list, Kind::InsertProof) == if s.cliargs.db.enabled {
                seq![
                    ActionView::InsertProof {
                        entry: BlockProofView {
                            block_number: n,
                            zisk_version: setting(s.cliargs.db.zisk_version),
                            hardware: setting(s.cliargs.db.hardware),
                            proof: text,
                            proving_time: time as u32,
                            steps,
                        },
                    },
                ]
            } else {
                none
            }
            &&& of_kind(list, Kind::SendAlert) == if s.cliargs.telegram.alert@.contains(
                TelegramEvent::BlockProved,
            ) {
                seq![
                    ActionView::SendAlert {
                        alert: AlertView {
                            message: "Proof generated for block "@ + decimal(n as nat)
                                + ", proving_time: "@ + decimal((time / 1000) as nat)
                                + "s, cycles: "@ + decimal(steps as nat),
                            alert_type: AlertType::Success,
                        },
                    },
                ]
            } else {
                none
            }
            &&& of_kind(list, Kind::Publish) == if publishes {
                seq![
                    ActionView::Publish {
                        ops: proof_success(
                            s.latest_block,
                            BlockMetrics {
                                block_number: known.block_number,
                                received_time_ms: known.received_time_ms,
                                time_to_input_ms: known.time_to_input_ms,
                                mgas: known.mgas,
                                tx_count: known.tx_count,
                                timestamp: known.timestamp,
                                proving_time_ms: Some(time as i64),
                                proving_cycles: Some(steps as i64),
                                submit_time_ms: if submit_time_ms is Some {
                                    submit_time_ms
                                } else {
                                    Some(0i64)
                                },
                                success: true,
                            },
                            time,
                        ),
                    },
                ]
            } else {
                none
            }
            &&& of_kind(list, Kind::DeleteInput) == if !s.cliargs.inputs.keep {
                seq![
                    ActionView::DeleteInput {
                        path: s.cliargs.inputs.folder@ + "/"@ + block.filename(),
                    },
                ]
            } else {
                none
            }
            &&& forall|k: Kind|
                !(k is InsertProof || k is SendAlert || k is Publish || k is DeleteInput)
                    ==> #[trigger] of_kind(list, k) == none
            &&& in_order(list)
            &&& t.latest_block == if publishes {
                known.block_number as i64
            } else {
                s.latest_block
            }
            &&& !publishes ==> t.shared_metrics == s.shared_metrics
            &&& forall|m: u64|
                publishes ==> (#[trigger] t.shared_metrics.contains_key(m)
                    <==> s.shared_metrics.contains_key(m) && m != n)
            &&& forall|m: u64|
                publishes && m != n ==> #[trigger] t.shared_metrics[m] == s.shared_metrics[m]
            &&& t.cliargs == s.cliargs
            &&& t.proving_block == s.proving_block
            &&& t.next_proving_block == s.next_proving_block
            &&& t.zisk_stdin == s.zisk_stdin
            &&& t.current_job_id == s.current_job_id
            &&& t.fired_alerts == s.fired_alerts
            &&& t.proved_blocks == s.proved_blocks
            &&& t.run_deadline == s.run_deadline
        }),
{
    lemma_empty();
    lemma_low_bits(payload.duration_ms);
    lemma_stored(
        s,
        block,
        Seq::empty(),
        text,
        payload.proving_time(),
        payload.steps(),
        match submit_time_ms {
            Some(time) => Some(time),
            None => Some(0i64),
        },
    );
}

} // verus!
