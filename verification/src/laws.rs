//! What holds of a whole run of the client, whatever happens in it.

use vstd::prelude::*;
use vstd::string::*;

#[allow(unused_imports)]
use crate::action::{with_alert, with_hook, ActionView};
#[allow(unused_imports)]
use crate::cliargs::{CliArgs, TelegramEvent};
#[allow(unused_imports)]
use crate::codec::{base64_standard, encodable, words_le};
#[allow(unused_imports)]
use crate::process::{
    block_queued, input_noted, launch_failed_message, proof_launched, skipped_panic,
};
#[allow(unused_imports)]
use crate::protocol::BlockInfoView;
#[allow(unused_imports)]
use crate::prove::{
    failure_published, next_failed_message, next_launched, proof_failed, proof_failed_message,
    proof_filename, proof_succeeded, processed_actions, queue_advanced, returned_actions, shown_job, success_published, with_deletion,
    with_entry, ProveResult,
};
#[allow(unused_imports)]
use crate::state::{
    csv_header, csv_row, deadline_passed, initial_state, input_path, summary, AppStateView,
};
#[allow(unused_imports)]
use crate::telegram::{
    alert_for, block_proved_message, resumed_message, skipped_message, AlertType, AlertView,
};
#[allow(unused_imports)]
use crate::text::{
    decimal, law_decimal_is_digits, lemma_split_at, lemma_split_last, split,
};
#[allow(unused_imports)]
use crate::webhook::{
    webhook_failed, webhook_failed_message, webhook_stored, webhook_submission, WebhookPayload,
};

verus! {

/// Something that happens to the client.
pub enum Event<S> {
    /// The input of a block has arrived.
    InputArrived { block: BlockInfoView, input_time_ms: u128, now_ms: Option<u128> },
    /// A block has been queued behind the one being proved.
    Queued { block: BlockInfoView },
    /// An input has been stored.
    InputStored { zisk_stdin: S },
    /// The stored input has been taken for a proof.
    InputTaken,
    /// The proof of a new block has been launched, or could not be.
    Launched { block: BlockInfoView, result: Result<Seq<char>, Seq<char>> },
    /// The proof of a block has come back.
    Returned { block_number: u64, past_deadline: bool },
    /// The proof of the queued block has been launched, or could not be.
    NextLaunched { next: BlockInfoView, result: Result<Seq<char>, Seq<char>>, hook: bool },
    /// A proof has been processed.
    Succeeded { block: BlockInfoView, proof_start_ts: Seq<char>, outcome: ProveResult },
    /// A failed proof has been processed.
    Failed { block_number: u64, error: Seq<char>, job_id: Seq<char> },
    /// The result of a proof has been processed.
    Processed { deadline_reached: bool },
    /// A failed proof that was delivered has been processed.
    DeliveredFailure { block_number: u64, payload: WebhookPayload },
    /// A proof that was delivered has been encoded.
    Delivered { block_number: u64, payload: WebhookPayload, text: Seq<char> },
    /// A proof that was delivered has been stored.
    DeliveredProof {
        block: BlockInfoView,
        payload: WebhookPayload,
        proof_text: Seq<char>,
        submit_time_ms: Option<i64>,
    },
}

/// Whether an event can happen in a state. Blocks are queued only behind
/// another one, with numbers that do not go down, and new blocks are launched
/// only when none is being proved. When the queued block could not be launched,
/// no other block has been queued meanwhile. Only proofs that succeeded are
/// encoded.
pub open spec fn can_happen<S>(s: AppStateView<S>, event: Event<S>) -> bool {
    match event {
        Event::Queued { block } => s.proving_block is Some && block.block_number
            >= s.proving_block->0.block_number,
        Event::Launched { .. } => s.proving_block is None,
        Event::NextLaunched { result, .. } => result is Err ==> s.next_proving_block is None,
        Event::Delivered { payload, .. } => payload.success,
        _ => true,
    }
}

/// The state after an event and the actions that it calls for.
pub open spec fn happens<S>(s: AppStateView<S>, event: Event<S>) -> (
    AppStateView<S>,
    Seq<ActionView>,
) {
    match event {
        Event::InputArrived { block, input_time_ms, now_ms } => (
            input_noted(s, block, input_time_ms, now_ms),
            Seq::empty(),
        ),
        Event::Queued { block } => block_queued(s, block),
        Event::InputStored { zisk_stdin } => (
            AppStateView { zisk_stdin: Some(zisk_stdin), ..s },
            Seq::empty(),
        ),
        Event::InputTaken => (AppStateView { zisk_stdin: None, ..s }, Seq::empty()),
        Event::Launched { block, result } => proof_launched(s, block, result),
        Event::Returned { block_number, past_deadline } => (
            queue_advanced(s, past_deadline),
            returned_actions(s, block_number, past_deadline),
        ),
        Event::NextLaunched { next, result, hook } => next_launched(s, next, result, hook),
        Event::Succeeded { block, proof_start_ts, outcome } => proof_succeeded(
            s,
            block,
            proof_start_ts,
            outcome,
        ),
        Event::Failed { block_number, error, job_id } => proof_failed(
            s,
            block_number,
            error,
            job_id,
        ),
        Event::Processed { deadline_reached } => (
            s,
            processed_actions(deadline_reached, s.proved_blocks),
        ),
        Event::DeliveredFailure { block_number, payload } => webhook_failed(
            s,
            block_number,
            payload,
        ),
        Event::Delivered { block_number, payload, text } => (
            s,
            match webhook_submission(s, block_number, payload, text) {
                Some(submission) => seq![submission],
                None => Seq::empty(),
            },
        ),
        Event::DeliveredProof { block, payload, proof_text, submit_time_ms } => webhook_stored(
            s,
            block,
            payload,
            proof_text,
            submit_time_ms,
        ),
    }
}

/// Whether a state is one that a run can be in. A block waits only behind
/// another one with a number that is not larger. Figures are kept under the
/// number of their block. An alert counts as out only if it can be sent.
pub open spec fn well_formed<S>(s: AppStateView<S>) -> bool {
    &&& s.next_proving_block is Some ==> s.proving_block is Some
        && s.next_proving_block->0.block_number >= s.proving_block->0.block_number
    &&& forall|number: u64| #[trigger]
        s.shared_metrics.contains_key(number) ==> s.shared_metrics[number].block_number == number
    &&& s.fired_alerts.skipped ==> s.cliargs.alerts(TelegramEvent::SkippedThreshold)
    &&& s.fired_alerts.failed ==> s.cliargs.alerts(TelegramEvent::ProofFailed)
}

/// The state after a run of events.
pub open spec fn after<S>(s: AppStateView<S>, events: Seq<Event<S>>) -> AppStateView<S>
    decreases events.len(),
{
    if events.len() == 0 {
        s
    } else {
        happens(after(s, events.drop_last()), events.last()).0
    }
}

/// Whether every event of a run can happen when it does.
pub open spec fn can_run<S>(s: AppStateView<S>, events: Seq<Event<S>>) -> bool
    decreases events.len(),
{
    if events.len() == 0 {
        true
    } else {
        can_run(s, events.drop_last()) && can_happen(after(s, events.drop_last()), events.last())
    }
}

/// No event leads out of the well-formed states.
pub proof fn law_event_keeps_well_formed<S>(s: AppStateView<S>, event: Event<S>)
    requires
        well_formed(s),
        can_happen(s, event),
    ensures
        well_formed(happens(s, event).0),
{
}

/// A client is in a well-formed state at every moment of its run.
pub proof fn law_run_is_well_formed<S>(cliargs: CliArgs, now: u128, events: Seq<Event<S>>)
    requires
        can_run(initial_state::<S>(cliargs, now), events),
    ensures
        well_formed(after(initial_state::<S>(cliargs, now), events)),
    decreases events.len(),
{
    if events.len() > 0 {
        law_run_is_well_formed(cliargs, now, events.drop_last());
        law_event_keeps_well_formed(
            after(initial_state::<S>(cliargs, now), events.drop_last()),
            events.last(),
        );
    }
}

/// The configuration and the end of the run time never change.
pub proof fn law_run_keeps_configuration<S>(s: AppStateView<S>, events: Seq<Event<S>>)
    ensures
        after(s, events).cliargs == s.cliargs,
        after(s, events).run_deadline == s.run_deadline,
    decreases events.len(),
{
    if events.len() > 0 {
        law_run_keeps_configuration(s, events.drop_last());
    }
}

/// Once the run time is over, it stays over.
pub proof fn law_run_time_stays_over<S>(
    s: AppStateView<S>,
    events: Seq<Event<S>>,
    now: u128,
    later: u128,
)
    requires
        deadline_passed(s.run_deadline, now),
        now <= later,
    ensures
        deadline_passed(after(s, events).run_deadline, later),
{
    law_run_keeps_configuration(s, events);
}

/// The number of proofs in a run of events.
pub open spec fn proofs_in<S>(events: Seq<Event<S>>) -> nat
    decreases events.len(),
{
    if events.len() == 0 {
        0
    } else {
        proofs_in(events.drop_last()) + if events.last() is Succeeded {
            1nat
        } else {
            0
        }
    }
}

/// The summary of a run tells the number of its proofs.
pub proof fn law_run_counts_proofs<S>(cliargs: CliArgs, now: u128, events: Seq<Event<S>>)
    requires
        proofs_in(events) <= u64::MAX,
    ensures
        after(initial_state::<S>(cliargs, now), events).proved_blocks == proofs_in(events),
    decreases events.len(),
{
    if events.len() > 0 {
        law_run_counts_proofs(cliargs, now, events.drop_last());
    }
}

/// The figures of a block are published once: a proof with a text, and a failed
/// proof, take them out of those that are kept.
pub proof fn law_result_clears_figures<S>(
    s: AppStateView<S>,
    block: BlockInfoView,
    proof_start_ts: Seq<char>,
    outcome: ProveResult,
    error: Seq<char>,
    job_id: Seq<char>,
)
    requires
        s.cliargs.metrics.enabled,
    ensures
        outcome.proof is Some && encodable(words_le(outcome.proof->0@).len())
            ==> !proof_succeeded(
            s,
            block,
            proof_start_ts,
            outcome,
        ).0.shared_metrics.contains_key(block.block_number),
        !proof_failed(s, block.block_number, error, job_id).0.shared_metrics.contains_key(
            block.block_number,
        ),
{
}

/// Of the blocks that are queued behind a proof only the latest waits for it.
pub proof fn law_latest_block_waits<S>(s: AppStateView<S>, a: BlockInfoView, b: BlockInfoView)
    ensures
        block_queued(block_queued(s, a).0, b).0.next_proving_block == Some(b),
        block_queued(block_queued(s, a).0, b).0.proving_block == s.proving_block,
{
}

/// When a proof comes back, the block that waits for it is proved next. Once the
/// run time is over, no block is.
pub proof fn law_waiting_block_is_next<S>(s: AppStateView<S>, block: BlockInfoView, past_deadline: bool)
    ensures
        queue_advanced(block_queued(s, block).0, past_deadline).proving_block == if past_deadline {
            None
        } else {
            Some(block)
        },
        queue_advanced(s, past_deadline).next_proving_block is None,
{
}

/// Whether a list of actions holds an alert of a kind.
pub open spec fn alerts_with(actions: Seq<ActionView>, alert_type: AlertType) -> bool {
    exists|i: int|
        0 <= i < actions.len() && (#[trigger] actions[i]) is SendAlert
            && actions[i]->alert.alert_type == alert_type
}

proof fn lemma_alert_at(actions: Seq<ActionView>, i: int, alert_type: AlertType)
    requires
        0 <= i < actions.len(),
        actions[i] is SendAlert,
        actions[i]->alert.alert_type == alert_type,
    ensures
        alerts_with(actions, alert_type),
{
}

/// Skipped blocks are alerted once: a warning is sent exactly when none was out
/// and one is now, the all-clear exactly when one was out and none is now.
pub proof fn law_skipped_alerts_alternate<S>(s: AppStateView<S>, block: BlockInfoView)
    requires
        well_formed(s),
    ensures
        alerts_with(block_queued(s, block).1, AlertType::Warning) <==> !s.fired_alerts.skipped
            && block_queued(s, block).0.fired_alerts.skipped,
        alerts_with(block_queued(s, block).1, AlertType::Info) <==> s.fired_alerts.skipped
            && !block_queued(s, block).0.fired_alerts.skipped,
{
    let (t, actions) = block_queued(s, block);
    let proving = s.proving_block->0.block_number;
    let hooked = if block.block_number - proving - 1 > s.cliargs.skipped.threshold {
        with_hook(Seq::empty(), s.cliargs.hooks.blocks_skipped, proving, s.current_job_id)
    } else {
        Seq::empty()
    };
    if !s.fired_alerts.skipped && t.fired_alerts.skipped {
        lemma_alert_at(actions, hooked.len() as int, AlertType::Warning);
    }
    if s.fired_alerts.skipped && !t.fired_alerts.skipped {
        lemma_alert_at(actions, 0, AlertType::Info);
    }
}

/// Proofs that cannot be launched are alerted once: an error is sent exactly
/// when none was out and one is now, the all-clear exactly when one was out and
/// none is now.
pub proof fn law_failed_alerts_alternate<S>(
    s: AppStateView<S>,
    block: BlockInfoView,
    result: Result<Seq<char>, Seq<char>>,
)
    requires
        well_formed(s),
    ensures
        alerts_with(proof_launched(s, block, result).1, AlertType::Error) <==> !s.fired_alerts.failed
            && proof_launched(s, block, result).0.fired_alerts.failed,
        alerts_with(proof_launched(s, block, result).1, AlertType::Info) <==> s.fired_alerts.failed
            && !proof_launched(s, block, result).0.fired_alerts.failed,
{
    let (t, actions) = proof_launched(s, block, result);
    let hooked = with_hook(
        Seq::empty(),
        s.cliargs.hooks.proof_failed,
        block.block_number,
        s.current_job_id,
    );
    if !s.fired_alerts.failed && t.fired_alerts.failed {
        lemma_alert_at(actions, hooked.len() as int, AlertType::Error);
    }
    if s.fired_alerts.failed && !t.fired_alerts.failed {
        lemma_alert_at(actions, 0, AlertType::Info);
    }
}

/// The client panics exactly when it is so configured and more blocks are skipped
/// than the threshold: those between the block being proved and the queued one.
pub proof fn law_panic_is_over_threshold<S>(s: AppStateView<S>, block: BlockInfoView)
    ensures
        (exists|i: int|
            0 <= i < block_queued(s, block).1.len() && (#[trigger] block_queued(s, block).1[i]) is Panic)
            <==> s.cliargs.skipped.panic && block.block_number
            - s.proving_block->0.block_number - 1 > s.cliargs.skipped.threshold,
{
    let actions = block_queued(s, block).1;
    if s.cliargs.skipped.panic && block.block_number - s.proving_block->0.block_number - 1
        > s.cliargs.skipped.threshold {
        assert(actions[actions.len() - 1] is Panic);
    }
}

/// The kinds of the alerts in a list of actions, in their order.
pub open spec fn alert_kinds(actions: Seq<ActionView>) -> Seq<AlertType>
    decreases actions.len(),
{
    if actions.len() == 0 {
        Seq::empty()
    } else {
        let before = alert_kinds(actions.drop_last());
        match actions.last() {
            ActionView::SendAlert { alert } => before.push(alert.alert_type),
            _ => before,
        }
    }
}

proof fn lemma_kinds_push(actions: Seq<ActionView>, action: ActionView)
    ensures
        alert_kinds(actions.push(action)) == match action {
            ActionView::SendAlert { alert } => alert_kinds(actions).push(alert.alert_type),
            _ => alert_kinds(actions),
        },
{
    assert(actions.push(action).drop_last() =~= actions);
}

/// The kinds of the alerts about skipped blocks in a run, in their order: those
/// that are sent when blocks are queued.
pub open spec fn skipped_alerts_in<S>(s: AppStateView<S>, events: Seq<Event<S>>) -> Seq<AlertType>
    decreases events.len(),
{
    if events.len() == 0 {
        Seq::empty()
    } else {
        let before = skipped_alerts_in(s, events.drop_last());
        if events.last() is Queued {
            before + alert_kinds(happens(after(s, events.drop_last()), events.last()).1)
        } else {
            before
        }
    }
}

/// The kinds of the alerts about launches in a run, in their order: those that
/// are sent when proofs of new blocks are launched, or could not be.
pub open spec fn launch_alerts_in<S>(s: AppStateView<S>, events: Seq<Event<S>>) -> Seq<AlertType>
    decreases events.len(),
{
    if events.len() == 0 {
        Seq::empty()
    } else {
        let before = launch_alerts_in(s, events.drop_last());
        if events.last() is Launched {
            before + alert_kinds(happens(after(s, events.drop_last()), events.last()).1)
        } else {
            before
        }
    }
}

/// Whether alerts come in turns: one of the first kind, one of the second, and
/// so on.
pub open spec fn in_turns(alerts: Seq<AlertType>, first: AlertType, second: AlertType) -> bool {
    forall|i: int|
        0 <= i < alerts.len() ==> #[trigger] alerts[i] == if i % 2 == 0 {
            first
        } else {
            second
        }
}

/// What queueing a block alerts: a warning if none was out and one is now, the
/// all-clear if one was out and none is now, nothing if that stays.
proof fn lemma_queued_alerts<S>(s: AppStateView<S>, block: BlockInfoView)
    requires
        s.fired_alerts.skipped ==> s.cliargs.alerts(TelegramEvent::SkippedThreshold),
    ensures
        alert_kinds(block_queued(s, block).1) == if s.fired_alerts.skipped == block_queued(
            s,
            block,
        ).0.fired_alerts.skipped {
            Seq::empty()
        } else if s.fired_alerts.skipped {
            seq![AlertType::Info]
        } else {
            seq![AlertType::Warning]
        },
{
    let proving = s.proving_block->0.block_number;
    let distance = block.block_number - proving;
    let nothing = Seq::<ActionView>::empty();
    let hooked = if distance - 1 > s.cliargs.skipped.threshold {
        with_hook(nothing, s.cliargs.hooks.blocks_skipped, proving, s.current_job_id)
    } else {
        nothing
    };
    if hooked.len() > 0 {
        lemma_kinds_push(nothing, hooked.last());
        assert(hooked =~= nothing.push(hooked.last()));
    }
    assert(alert_kinds(hooked) =~= Seq::<AlertType>::empty());
    let warning = ActionView::SendAlert {
        alert: AlertView {
            message: skipped_message(proving, block.block_number, (distance - 1) as u64),
            alert_type: AlertType::Warning,
        },
    };
    let panic = ActionView::Panic { message: skipped_panic() };
    lemma_kinds_push(hooked, warning);
    lemma_kinds_push(hooked, panic);
    lemma_kinds_push(hooked.push(warning), ActionView::AwaitAlert);
    lemma_kinds_push(hooked.push(warning).push(ActionView::AwaitAlert), panic);
    let resumed = ActionView::SendAlert {
        alert: AlertView { message: resumed_message(proving), alert_type: AlertType::Info },
    };
    lemma_kinds_push(nothing, resumed);
    assert(Seq::<AlertType>::empty().push(AlertType::Info) =~= seq![AlertType::Info]);
    assert(Seq::<AlertType>::empty().push(AlertType::Warning) =~= seq![AlertType::Warning]);
}

/// What a launch alerts: an error if none was out and one is now, the all-clear
/// if one was out and none is now, nothing if that stays.
proof fn lemma_launch_alerts<S>(
    s: AppStateView<S>,
    block: BlockInfoView,
    result: Result<Seq<char>, Seq<char>>,
)
    requires
        s.fired_alerts.failed ==> s.cliargs.alerts(TelegramEvent::ProofFailed),
    ensures
        alert_kinds(proof_launched(s, block, result).1) == if s.fired_alerts.failed
            == proof_launched(s, block, result).0.fired_alerts.failed {
            Seq::empty()
        } else if s.fired_alerts.failed {
            seq![AlertType::Info]
        } else {
            seq![AlertType::Error]
        },
{
    let nothing = Seq::<ActionView>::empty();
    let hooked = with_hook(
        nothing,
        s.cliargs.hooks.proof_failed,
        block.block_number,
        s.current_job_id,
    );
    if hooked.len() > 0 {
        lemma_kinds_push(nothing, hooked.last());
        assert(hooked =~= nothing.push(hooked.last()));
    }
    assert(alert_kinds(hooked) =~= Seq::<AlertType>::empty());
    let resumed = ActionView::SendAlert {
        alert: AlertView {
            message: resumed_message(block.block_number),
            alert_type: AlertType::Info,
        },
    };
    lemma_kinds_push(nothing, resumed);
    if let Err(error) = result {
        let failed = ActionView::SendAlert {
            alert: AlertView {
                message: launch_failed_message(block.block_number, error),
                alert_type: AlertType::Error,
            },
        };
        lemma_kinds_push(hooked, failed);
    }
    assert(Seq::<AlertType>::empty().push(AlertType::Info) =~= seq![AlertType::Info]);
    assert(Seq::<AlertType>::empty().push(AlertType::Error) =~= seq![AlertType::Error]);
}

/// Only queueing a block changes whether skipped blocks are alerted, and only a
/// launch whether failed launches are. An alert that is out stays one that can
/// be sent.
proof fn lemma_alert_flags<S>(s: AppStateView<S>, event: Event<S>)
    ensures
        ({
            let t = happens(s, event).0;
            &&& (s.fired_alerts.skipped ==> s.cliargs.alerts(TelegramEvent::SkippedThreshold)) ==> (
            t.fired_alerts.skipped ==> t.cliargs.alerts(TelegramEvent::SkippedThreshold))
            &&& (s.fired_alerts.failed ==> s.cliargs.alerts(TelegramEvent::ProofFailed)) ==> (
            t.fired_alerts.failed ==> t.cliargs.alerts(TelegramEvent::ProofFailed))
            &&& !(event is Queued) ==> t.fired_alerts.skipped == s.fired_alerts.skipped
            &&& !(event is Launched) ==> t.fired_alerts.failed == s.fired_alerts.failed
        }),
{
}

proof fn lemma_skipped_in_turns<S>(s: AppStateView<S>, events: Seq<Event<S>>)
    requires
        !s.fired_alerts.skipped,
    ensures
        ({
            let t = after(s, events);
            &&& t.fired_alerts.skipped ==> t.cliargs.alerts(TelegramEvent::SkippedThreshold)
            &&& t.fired_alerts.skipped <==> skipped_alerts_in(s, events).len() % 2 == 1
            &&& in_turns(skipped_alerts_in(s, events), AlertType::Warning, AlertType::Info)
        }),
    decreases events.len(),
{
    if events.len() > 0 {
        let before = after(s, events.drop_last());
        lemma_skipped_in_turns(s, events.drop_last());
        lemma_alert_flags(before, events.last());
        if let Event::Queued { block } = events.last() {
            lemma_queued_alerts(before, block);
        }
    }
}

proof fn lemma_launches_in_turns<S>(s: AppStateView<S>, events: Seq<Event<S>>)
    requires
        !s.fired_alerts.failed,
    ensures
        ({
            let t = after(s, events);
            &&& t.fired_alerts.failed ==> t.cliargs.alerts(TelegramEvent::ProofFailed)
            &&& t.fired_alerts.failed <==> launch_alerts_in(s, events).len() % 2 == 1
            &&& in_turns(launch_alerts_in(s, events), AlertType::Error, AlertType::Info)
        }),
    decreases events.len(),
{
    if events.len() > 0 {
        let before = after(s, events.drop_last());
        lemma_launches_in_turns(s, events.drop_last());
        lemma_alert_flags(before, events.last());
        if let Event::Launched { block, result } = events.last() {
            lemma_launch_alerts(before, block, result);
        }
    }
}

/// From a state in which no warning is out, the alerts about skipped blocks come
/// in turns over a whole run: first a warning, then an all-clear, then the next
/// warning. None is repeated while the blocks stay on one side of the threshold,
/// and a warning is out exactly when the last of these alerts was one.
pub proof fn law_run_alternates_skipped_alerts<S>(s: AppStateView<S>, events: Seq<Event<S>>)
    requires
        !s.fired_alerts.skipped,
    ensures
        in_turns(skipped_alerts_in(s, events), AlertType::Warning, AlertType::Info),
        after(s, events).fired_alerts.skipped <==> skipped_alerts_in(s, events).len() % 2 == 1,
{
    lemma_skipped_in_turns(s, events);
}

/// From a state in which no error is out, the alerts about launches come in
/// turns over a whole run: first an error, then an all-clear, then the next
/// error. An error is out exactly when the last of these alerts was one.
pub proof fn law_run_alternates_launch_alerts<S>(s: AppStateView<S>, events: Seq<Event<S>>)
    requires
        !s.fired_alerts.failed,
    ensures
        in_turns(launch_alerts_in(s, events), AlertType::Error, AlertType::Info),
        after(s, events).fired_alerts.failed <==> launch_alerts_in(s, events).len() % 2 == 1,
{
    lemma_launches_in_turns(s, events);
}

/// The number of proofs that a list of actions submits to EthProofs.
pub open spec fn submissions(actions: Seq<ActionView>) -> nat
    decreases actions.len(),
{
    if actions.len() == 0 {
        0
    } else {
        submissions(actions.drop_last()) + if actions.last() is ReportProved {
            1nat
        } else {
            0
        }
    }
}

/// The number of times that a list of actions exits the program.
pub open spec fn exits(actions: Seq<ActionView>) -> nat
    decreases actions.len(),
{
    if actions.len() == 0 {
        0
    } else {
        exits(actions.drop_last()) + if actions.last() is Exit {
            1nat
        } else {
            0
        }
    }
}

/// The number of input files that a list of actions deletes.
pub open spec fn deletions(actions: Seq<ActionView>) -> nat
    decreases actions.len(),
{
    if actions.len() == 0 {
        0
    } else {
        deletions(actions.drop_last()) + if actions.last() is DeleteInput {
            1nat
        } else {
            0
        }
    }
}

proof fn lemma_push(actions: Seq<ActionView>, action: ActionView)
    ensures
        submissions(actions.push(action)) == submissions(actions) + if action is ReportProved {
            1nat
        } else {
            0
        },
        exits(actions.push(action)) == exits(actions) + if action is Exit {
            1nat
        } else {
            0
        },
        deletions(actions.push(action)) == deletions(actions) + if action is DeleteInput {
            1nat
        } else {
            0
        },
{
    assert(actions.push(action).drop_last() =~= actions);
}

/// Whether one list of actions submits and exits as another one does and, where
/// inputs are kept, deletes as it does.
spec fn as_quiet_as(a: Seq<ActionView>, b: Seq<ActionView>, keep: bool) -> bool {
    submissions(a) == submissions(b) && exits(a) == exits(b) && (keep ==> deletions(a)
        == deletions(b))
}

proof fn lemma_alert_is_quiet(actions: Seq<ActionView>, alert: Option<AlertView>)
    ensures
        as_quiet_as(with_alert(actions, alert), actions, true),
{
    if alert is Some {
        lemma_push(actions, ActionView::SendAlert { alert: alert->0 });
    }
}

proof fn lemma_hook_is_quiet(
    actions: Seq<ActionView>,
    script: Option<String>,
    block_number: u64,
    job_id: Seq<char>,
)
    ensures
        as_quiet_as(with_hook(actions, script, block_number, job_id), actions, true),
{
    if script is Some {
        lemma_push(actions, with_hook(actions, script, block_number, job_id).last());
    }
}

proof fn lemma_deletion_is_quiet(actions: Seq<ActionView>, cliargs: CliArgs, block: BlockInfoView)
    ensures
        as_quiet_as(with_deletion(actions, cliargs, block), actions, cliargs.inputs.keep),
{
    if !cliargs.inputs.keep {
        lemma_push(actions, with_deletion(actions, cliargs, block).last());
    }
}

proof fn lemma_entry_is_quiet(
    actions: Seq<ActionView>,
    cliargs: CliArgs,
    block_number: u64,
    text: Seq<char>,
    time: u64,
    steps: u64,
)
    ensures
        as_quiet_as(with_entry(actions, cliargs, block_number, text, time, steps), actions, true),
{
    if cliargs.db.enabled {
        lemma_push(
            actions,
            with_entry(actions, cliargs, block_number, text, time, steps).last(),
        );
    }
}

proof fn lemma_failure_is_quiet<S>(s: AppStateView<S>, actions: Seq<ActionView>, block_number: u64)
    ensures
        as_quiet_as(failure_published(s, actions, block_number).1, actions, true),
{
    if s.cliargs.metrics.enabled {
        lemma_push(actions, failure_published(s, actions, block_number).1.last());
    }
}

proof fn lemma_success_is_quiet<S>(
    s: AppStateView<S>,
    actions: Seq<ActionView>,
    block_number: u64,
    time: u64,
    steps: u64,
    submit_time_ms: Option<i64>,
)
    ensures
        as_quiet_as(
            success_published(s, actions, block_number, time, steps, submit_time_ms).1,
            actions,
            true,
        ),
{
    if s.cliargs.metrics.enabled && s.shared_metrics.contains_key(block_number) {
        lemma_push(
            actions,
            success_published(s, actions, block_number, time, steps, submit_time_ms).1.last(),
        );
    }
}

proof fn lemma_queued_is_quiet<S>(s: AppStateView<S>, block: BlockInfoView)
    ensures
        as_quiet_as(block_queued(s, block).1, Seq::empty(), true),
{
    let proving = s.proving_block->0.block_number;
    let distance = block.block_number - proving;
    let skipped = alert_for(
        s.cliargs,
        TelegramEvent::SkippedThreshold,
        skipped_message(proving, block.block_number, (distance - 1) as u64),
        AlertType::Warning,
    );
    let alert = if s.fired_alerts.skipped {
        None
    } else {
        skipped
    };
    let hooked = if distance - 1 > s.cliargs.skipped.threshold {
        with_hook(Seq::empty(), s.cliargs.hooks.blocks_skipped, proving, s.current_job_id)
    } else {
        Seq::empty()
    };
    lemma_hook_is_quiet(
        Seq::empty(),
        s.cliargs.hooks.blocks_skipped,
        proving,
        s.current_job_id,
    );
    lemma_alert_is_quiet(hooked, alert);
    let alerted = with_alert(hooked, alert);
    lemma_push(alerted, ActionView::AwaitAlert);
    lemma_push(
        alerted.push(ActionView::AwaitAlert),
        ActionView::Panic { message: skipped_panic() },
    );
    lemma_push(alerted, ActionView::Panic { message: skipped_panic() });
    lemma_alert_is_quiet(
        Seq::empty(),
        alert_for(
            s.cliargs,
            TelegramEvent::SkippedThreshold,
            resumed_message(proving),
            AlertType::Info,
        ),
    );
}

proof fn lemma_launched_is_quiet<S>(
    s: AppStateView<S>,
    block: BlockInfoView,
    result: Result<Seq<char>, Seq<char>>,
)
    ensures
        as_quiet_as(proof_launched(s, block, result).1, Seq::empty(), true),
{
    let hooked = with_hook(
        Seq::empty(),
        s.cliargs.hooks.proof_failed,
        block.block_number,
        s.current_job_id,
    );
    lemma_hook_is_quiet(
        Seq::empty(),
        s.cliargs.hooks.proof_failed,
        block.block_number,
        s.current_job_id,
    );
    match result {
        Ok(_) => {
            lemma_alert_is_quiet(
                Seq::empty(),
                alert_for(
                    s.cliargs,
                    TelegramEvent::ProofFailed,
                    resumed_message(block.block_number),
                    AlertType::Info,
                ),
            );
        },
        Err(error) => {
            lemma_alert_is_quiet(
                hooked,
                alert_for(
                    s.cliargs,
                    TelegramEvent::ProofFailed,
                    launch_failed_message(block.block_number, error),
                    AlertType::Error,
                ),
            );
            lemma_alert_is_quiet(hooked, None);
        },
    }
}

proof fn lemma_next_launched_is_quiet<S>(
    s: AppStateView<S>,
    next: BlockInfoView,
    result: Result<Seq<char>, Seq<char>>,
    hook: bool,
)
    ensures
        as_quiet_as(next_launched(s, next, result, hook).1, Seq::empty(), s.cliargs.inputs.keep),
{
    if let Err(error) = result {
        let hooked = if hook {
            with_hook(
                Seq::empty(),
                s.cliargs.hooks.proof_failed,
                next.block_number,
                s.current_job_id,
            )
        } else {
            Seq::empty()
        };
        lemma_hook_is_quiet(
            Seq::empty(),
            s.cliargs.hooks.proof_failed,
            next.block_number,
            s.current_job_id,
        );
        let alert = alert_for(
            s.cliargs,
            TelegramEvent::ProofFailed,
            next_failed_message(next.block_number, error),
            AlertType::Error,
        );
        lemma_alert_is_quiet(hooked, alert);
        lemma_deletion_is_quiet(with_alert(hooked, alert), s.cliargs, next);
    }
}

proof fn lemma_stored_is_quiet<S>(
    s: AppStateView<S>,
    block: BlockInfoView,
    payload: WebhookPayload,
    text: Seq<char>,
    submit_time_ms: Option<i64>,
)
    ensures
        as_quiet_as(
            webhook_stored(s, block, payload, text, submit_time_ms).1,
            Seq::empty(),
            s.cliargs.inputs.keep,
        ),
{
    let n = block.block_number;
    let time = payload.proving_time();
    let steps = payload.steps();
    lemma_entry_is_quiet(Seq::empty(), s.cliargs, n, text, time, steps);
    let stored = with_entry(Seq::empty(), s.cliargs, n, text, time, steps);
    let alert = alert_for(
        s.cliargs,
        TelegramEvent::BlockProved,
        block_proved_message(n, time, steps),
        AlertType::Success,
    );
    lemma_alert_is_quiet(stored, alert);
    let alerted = with_alert(stored, alert);
    let submit_time = match submit_time_ms {
        Some(time) => Some(time),
        None => Some(0i64),
    };
    lemma_success_is_quiet(s, alerted, n, time, steps, submit_time);
    lemma_deletion_is_quiet(
        success_published(s, alerted, n, time, steps, submit_time).1,
        s.cliargs,
        block,
    );
}

proof fn lemma_failed<S>(s: AppStateView<S>, block_number: u64, error: Seq<char>, job_id: Seq<char>)
    ensures
        deletions(proof_failed(s, block_number, error, job_id).1) == 0,
        submissions(proof_failed(s, block_number, error, job_id).1) == 0,
        exits(proof_failed(s, block_number, error, job_id).1) == if s.cliargs.exit_on_error {
            1nat
        } else {
            0
        },
{
    let script = s.cliargs.hooks.proof_failed;
    let hooked = with_hook(Seq::empty(), script, block_number, job_id);
    let alert = alert_for(
        s.cliargs,
        TelegramEvent::ProofFailed,
        proof_failed_message(block_number, error),
        AlertType::Error,
    );
    lemma_hook_is_quiet(Seq::empty(), script, block_number, job_id);
    lemma_alert_is_quiet(hooked, alert);
    let alerted = with_alert(hooked, alert);
    lemma_failure_is_quiet(s, alerted, block_number);
    let ops = failure_published(s, alerted, block_number).1;
    lemma_push(ops, ActionView::AwaitAlert);
    let awaited = if alert is Some {
        ops.push(ActionView::AwaitAlert)
    } else {
        ops
    };
    let log = ActionView::LogSummary { text: summary(s.proved_blocks) };
    lemma_push(awaited, log);
    lemma_push(awaited.push(log), ActionView::Exit { code: 1 });
}

proof fn lemma_succeeded<S>(
    s: AppStateView<S>,
    block: BlockInfoView,
    proof_start_ts: Seq<char>,
    outcome: ProveResult,
)
    ensures
        submissions(proof_succeeded(s, block, proof_start_ts, outcome).1) == if submits(
            s.cliargs,
            outcome,
        ) {
            1nat
        } else {
            0
        },
        exits(proof_succeeded(s, block, proof_start_ts, outcome).1) == 0,
        s.cliargs.inputs.keep ==> deletions(
            proof_succeeded(s, block, proof_start_ts, outcome).1,
        ) == 0,
{
    let n = block.block_number;
    let time = outcome.proving_time_ms;
    let steps = outcome.proving_cycles;
    let counted = AppStateView { proved_blocks: s.proved_blocks.wrapping_add(1), ..s };
    let row = ActionView::WriteCsv {
        row: csv_row(proof_start_ts, n, block.mgas, block.tx_count, steps, time),
    };
    let nothing = Seq::<ActionView>::empty();
    lemma_push(nothing, row);
    assert(nothing.push(row) =~= seq![row]);
    let recorded = if s.cliargs.proof.csv is Some {
        seq![row]
    } else {
        nothing
    };
    let proof_words = outcome.proof;
    if let Some(words) = proof_words {
        let bytes = words_le(words@);
        let file = ActionView::SaveProof {
            folder: s.cliargs.proof.folder@,
            filename: proof_filename(n),
            bytes,
        };
        lemma_push(recorded, file);
        let saved = if s.cliargs.proof.save {
            recorded.push(file)
        } else {
            recorded
        };
        let text = base64_standard(bytes);
        let submission = ActionView::ReportProved {
            cluster_id: s.cliargs.ethproofs.cluster_id->0,
            block_number: n,
            proving_time_ms: time as u128,
            proving_cycles: steps,
            proof: text,
            job_id: shown_job(outcome.job_id),
        };
        lemma_push(saved, submission);
        let submitted = if s.cliargs.ethproofs.submit {
            saved.push(submission)
        } else {
            saved
        };
        lemma_entry_is_quiet(submitted, s.cliargs, n, text, time, steps);
        let stored = with_entry(submitted, s.cliargs, n, text, time, steps);
        let alert = alert_for(
            s.cliargs,
            TelegramEvent::BlockProved,
            block_proved_message(n, time, steps),
            AlertType::Success,
        );
        lemma_alert_is_quiet(stored, alert);
        let alerted = with_alert(stored, alert);
        lemma_success_is_quiet(counted, alerted, n, time, steps, None);
        lemma_deletion_is_quiet(
            success_published(counted, alerted, n, time, steps, None).1,
            s.cliargs,
            block,
        );
    }
}

/// Whether a proof that came back is submitted: proofs are, and it has a text.
pub open spec fn submits(cliargs: CliArgs, outcome: ProveResult) -> bool {
    cliargs.ethproofs.submit && outcome.proof is Some && encodable(
        words_le(outcome.proof->0@).len(),
    )
}

/// Whether an event submits a proof: one that came back from the prover with a
/// text, or one that was delivered and encoded, if proofs are submitted.
pub open spec fn asks_to_submit<S>(cliargs: CliArgs, event: Event<S>) -> bool {
    match event {
        Event::Succeeded { outcome, .. } => submits(cliargs, outcome),
        Event::Delivered { .. } => cliargs.ethproofs.submit,
        _ => false,
    }
}

/// Whether the program exits after an event: after a failed proof if it is so
/// configured, and when the run time is over.
pub open spec fn asks_to_exit<S>(cliargs: CliArgs, event: Event<S>) -> bool {
    match event {
        Event::Failed { .. } => cliargs.exit_on_error,
        Event::Processed { deadline_reached } => deadline_reached,
        _ => false,
    }
}

proof fn lemma_happens<S>(s: AppStateView<S>, event: Event<S>)
    ensures
        submissions(happens(s, event).1) == if asks_to_submit(s.cliargs, event) {
            1nat
        } else {
            0
        },
        exits(happens(s, event).1) == if asks_to_exit(s.cliargs, event) {
            1nat
        } else {
            0
        },
        s.cliargs.inputs.keep ==> deletions(happens(s, event).1) == 0,
{
    match event {
        Event::InputArrived { .. } => {},
        Event::Queued { block } => lemma_queued_is_quiet(s, block),
        Event::InputStored { .. } => {},
        Event::InputTaken => {},
        Event::Launched { block, result } => lemma_launched_is_quiet(s, block, result),
        Event::Returned { block_number, past_deadline } => {
            let nothing = Seq::<ActionView>::empty();
            let proving = ActionView::ReportProving {
                cluster_id: s.cliargs.ethproofs.cluster_id->0,
                block_number,
            };
            lemma_push(nothing, proving);
            assert(nothing.push(proving) =~= seq![proving]);
            lemma_push(nothing, ActionView::NotifyProofDone);
            lemma_push(seq![proving], ActionView::NotifyProofDone);
        },
        Event::NextLaunched { next, result, hook } => lemma_next_launched_is_quiet(
            s,
            next,
            result,
            hook,
        ),
        Event::Succeeded { block, proof_start_ts, outcome } => lemma_succeeded(
            s,
            block,
            proof_start_ts,
            outcome,
        ),
        Event::Failed { block_number, error, job_id } => lemma_failed(
            s,
            block_number,
            error,
            job_id,
        ),
        Event::Processed { deadline_reached } => {
            let nothing = Seq::<ActionView>::empty();
            let log = ActionView::LogSummary { text: summary(s.proved_blocks) };
            let exit = ActionView::Exit { code: 0 };
            lemma_push(nothing, log);
            lemma_push(nothing.push(log), exit);
            assert(nothing.push(log).push(exit) =~= seq![log, exit]);
        },
        Event::DeliveredFailure { block_number, payload } => {
            let alert = alert_for(
                s.cliargs,
                TelegramEvent::ProofFailed,
                webhook_failed_message(block_number, payload.job_id@, payload.error_text()),
                AlertType::Error,
            );
            lemma_alert_is_quiet(Seq::empty(), alert);
            lemma_failure_is_quiet(s, with_alert(Seq::empty(), alert), block_number);
        },
        Event::Delivered { block_number, payload, text } => {
            let nothing = Seq::<ActionView>::empty();
            if let Some(submission) = webhook_submission(s, block_number, payload, text) {
                lemma_push(nothing, submission);
                assert(nothing.push(submission) =~= seq![submission]);
            }
        },
        Event::DeliveredProof { block, payload, proof_text, submit_time_ms } =>
            lemma_stored_is_quiet(s, block, payload, proof_text, submit_time_ms),
    }
}

/// If proofs are submitted, a proof is submitted exactly once: when it came back
/// from the prover with a text, or when it was delivered and has been encoded.
/// No other event submits a proof.
pub proof fn law_proof_is_submitted_once<S>(s: AppStateView<S>, event: Event<S>)
    ensures
        submissions(happens(s, event).1) == if asks_to_submit(s.cliargs, event) {
            1nat
        } else {
            0
        },
{
    lemma_happens(s, event);
}

/// The program exits only after a failed proof, if it is so configured, or when
/// the run time is over, and then as the last thing it does.
pub proof fn law_exit_is_asked_for<S>(s: AppStateView<S>, event: Event<S>)
    ensures
        exits(happens(s, event).1) == if asks_to_exit(s.cliargs, event) {
            1nat
        } else {
            0
        },
        asks_to_exit(s.cliargs, event) ==> happens(s, event).1.last() is Exit,
{
    lemma_happens(s, event);
}

/// Where inputs are kept, no input file is ever deleted.
pub proof fn law_kept_inputs_stay<S>(s: AppStateView<S>, event: Event<S>)
    requires
        s.cliargs.inputs.keep,
    ensures
        deletions(happens(s, event).1) == 0,
{
    lemma_happens(s, event);
}

/// Otherwise the input of a block is the last thing that goes once its proof has
/// been processed, under the path that a queued block is read from.
pub proof fn law_proved_input_is_deleted<S>(
    s: AppStateView<S>,
    block: BlockInfoView,
    proof_start_ts: Seq<char>,
    outcome: ProveResult,
)
    requires
        !s.cliargs.inputs.keep,
        outcome.proof is Some,
        encodable(words_le(outcome.proof->0@).len()),
    ensures
        proof_succeeded(s, block, proof_start_ts, outcome).1.last() == (ActionView::DeleteInput {
            path: input_path(s.cliargs, block.filename()),
        }),
{
}

/// A row of the file of proved blocks comes apart into the columns that the
/// first row names, as long as its timestamp holds no comma.
pub proof fn law_csv_row_comes_apart(
    proof_start_ts: Seq<char>,
    block_number: u64,
    mgas: u64,
    tx_count: usize,
    steps: u64,
    proving_time_ms: u64,
)
    requires
        !proof_start_ts.contains(','),
    ensures
        split(
            csv_row(proof_start_ts, block_number, mgas, tx_count, steps, proving_time_ms),
            ',',
        ) == seq![
            proof_start_ts,
            decimal(block_number as nat),
            decimal(mgas as nat),
            decimal(tx_count as nat),
            decimal(steps as nat),
            decimal(proving_time_ms as nat),
        ],
{
    reveal_strlit(",");
    let columns = seq![
        proof_start_ts,
        decimal(block_number as nat),
        decimal(mgas as nat),
        decimal(tx_count as nat),
        decimal(steps as nat),
        decimal(proving_time_ms as nat),
    ];
    law_decimal_is_digits(block_number as nat);
    law_decimal_is_digits(mgas as nat);
    law_decimal_is_digits(tx_count as nat);
    law_decimal_is_digits(steps as nat);
    law_decimal_is_digits(proving_time_ms as nat);
    let row = csv_row(proof_start_ts, block_number, mgas, tx_count, steps, proving_time_ms);
    let a = proof_start_ts.len() as int;
    let b = a + 1 + columns[1].len();
    let c = b + 1 + columns[2].len();
    let d = c + 1 + columns[3].len();
    let e = d + 1 + columns[4].len();
    assert forall|i: int| 0 <= i < a implies row[i] != ',' by {
        assert(row[i] == proof_start_ts[i]);
        assert(proof_start_ts.contains(proof_start_ts[i]));
    }
    lemma_split_at(row, ',', 0, a);
    lemma_split_at(row, ',', a + 1, b);
    lemma_split_at(row, ',', b + 1, c);
    lemma_split_at(row, ',', c + 1, d);
    lemma_split_at(row, ',', d + 1, e);
    lemma_split_last(row, ',', e + 1);
    assert(row.subrange(0, a) =~= columns[0]);
    assert(row.subrange(a + 1, b) =~= columns[1]);
    assert(row.subrange(b + 1, c) =~= columns[2]);
    assert(row.subrange(c + 1, d) =~= columns[3]);
    assert(row.subrange(d + 1, e) =~= columns[4]);
    assert(row.subrange(e + 1, row.len() as int) =~= columns[5]);
    assert(split(row, ',') =~= columns);
}

/// The first row of the file of proved blocks names the columns of its rows.
pub proof fn law_csv_header_names_columns()
    ensures
        split(csv_header(), ',') == seq![
            "timestamp"@,
            "block_number"@,
            "mgas"@,
            "tx_count"@,
            "steps"@,
            "proving_time_ms"@,
        ],
{
    let header = csv_header();
    reveal_strlit("timestamp,block_number,mgas,tx_count,steps,proving_time_ms");
    reveal_strlit("timestamp");
    reveal_strlit("block_number");
    reveal_strlit("mgas");
    reveal_strlit("tx_count");
    reveal_strlit("steps");
    reveal_strlit("proving_time_ms");
    lemma_split_at(header, ',', 0, 9);
    lemma_split_at(header, ',', 10, 22);
    lemma_split_at(header, ',', 23, 27);
    lemma_split_at(header, ',', 28, 36);
    lemma_split_at(header, ',', 37, 42);
    lemma_split_last(header, ',', 43);
    assert(header.subrange(0, 9) =~= "timestamp"@);
    assert(header.subrange(10, 22) =~= "block_number"@);
    assert(header.subrange(23, 27) =~= "mgas"@);
    assert(header.subrange(28, 36) =~= "tx_count"@);
    assert(header.subrange(37, 42) =~= "steps"@);
    assert(header.subrange(43, header.len() as int) =~= "proving_time_ms"@);
    assert(split(header, ',') =~= seq![
        "timestamp"@,
        "block_number"@,
        "mgas"@,
        "tx_count"@,
        "steps"@,
        "proving_time_ms"@,
    ]);
}

} // verus!
