//! What the program around the library is asked to do.

use vstd::prelude::*;
use vstd::string::*;

use crate::db::BlockProof;
#[allow(unused_imports)]
use crate::db::BlockProofView;
use crate::metrics::MetricOp;
use crate::telegram::Alert;
#[allow(unused_imports)]
use crate::telegram::AlertView;
use crate::text::decimal_string;
#[allow(unused_imports)]
use crate::text::{decimal, views};

verus! {

/// A step for the program around the library, in the order of a list.
#[derive(Debug)]
pub enum Action {
    /// Tell EthProofs that a block is queued.
    ReportQueued { cluster_id: u32, block_number: u64 },
    /// Tell EthProofs that a block is being proved.
    ReportProving { cluster_id: u32, block_number: u64 },
    /// Submit a proof to EthProofs.
    ReportProved {
        cluster_id: u32,
        block_number: u64,
        proving_time_ms: u128,
        proving_cycles: u64,
        proof: String,
        job_id: String,
    },
    /// Run a script in the background.
    RunHook { script: String, args: Vec<String> },
    /// Send a Telegram alert in the background.
    SendAlert { alert: Alert },
    /// Wait until the alert sent last has been handled.
    AwaitAlert,
    /// Append a row to the file of proved blocks.
    WriteCsv { row: String },
    /// Write a proof to a file.
    SaveProof { folder: String, filename: String, bytes: Vec<u8> },
    /// Queue an entry for the database.
    InsertProof { entry: BlockProof },
    /// Change the published metrics.
    Publish { ops: Vec<MetricOp> },
    /// Remove an input file if it is there.
    DeleteInput { path: String },
    /// Tell the folder input that the current proof is complete.
    NotifyProofDone,
    /// Log a summary of the run.
    LogSummary { text: String },
    /// Stop the program with a panic.
    Panic { message: String },
    /// Exit the program.
    Exit { code: i32 },
}

/// The contents of an [`Action`].
pub enum ActionView {
    ReportQueued { cluster_id: u32, block_number: u64 },
    ReportProving { cluster_id: u32, block_number: u64 },
    ReportProved {
        cluster_id: u32,
        block_number: u64,
        proving_time_ms: u128,
        proving_cycles: u64,
        proof: Seq<char>,
        job_id: Seq<char>,
    },
    RunHook { script: Seq<char>, args: Seq<Seq<char>> },
    SendAlert { alert: AlertView },
    AwaitAlert,
    WriteCsv { row: Seq<char> },
    SaveProof { folder: Seq<char>, filename: Seq<char>, bytes: Seq<u8> },
    InsertProof { entry: BlockProofView },
    Publish { ops: Seq<MetricOp> },
    DeleteInput { path: Seq<char> },
    NotifyProofDone,
    LogSummary { text: Seq<char> },
    Panic { message: Seq<char> },
    Exit { code: i32 },
}

impl View for Action {
    type V = ActionView;

    open spec fn view(&self) -> ActionView {
        match *self {
            Action::ReportQueued { cluster_id, block_number } => ActionView::ReportQueued {
                cluster_id,
                block_number,
            },
            Action::ReportProving { cluster_id, block_number } => ActionView::ReportProving {
                cluster_id,
                block_number,
            },
            Action::ReportProved {
                cluster_id,
                block_number,
                proving_time_ms,
                proving_cycles,
                proof,
                job_id,
            } => ActionView::ReportProved {
                cluster_id,
                block_number,
                proving_time_ms,
                proving_cycles,
                proof: proof@,
                job_id: job_id@,
            },
            Action::RunHook { script, args } => ActionView::RunHook {
                script: script@,
                args: views(args@),
            },
            Action::SendAlert { alert } => ActionView::SendAlert { alert: alert@ },
            Action::AwaitAlert => ActionView::AwaitAlert,
            Action::WriteCsv { row } => ActionView::WriteCsv { row: row@ },
            Action::SaveProof { folder, filename, bytes } => ActionView::SaveProof {
                folder: folder@,
                filename: filename@,
                bytes: bytes@,
            },
            Action::InsertProof { entry } => ActionView::InsertProof { entry: entry@ },
            Action::Publish { ops } => ActionView::Publish { ops: ops@ },
            Action::DeleteInput { path } => ActionView::DeleteInput { path: path@ },
            Action::NotifyProofDone => ActionView::NotifyProofDone,
            Action::LogSummary { text } => ActionView::LogSummary { text: text@ },
            Action::Panic { message } => ActionView::Panic { message: message@ },
            Action::Exit { code } => ActionView::Exit { code },
        }
    }
}

/// The contents of a list of actions.
pub open spec fn contents(actions: Seq<Action>) -> Seq<ActionView> {
    actions.map_values(|a: Action| a@)
}

/// Appends an action to a list.
pub fn add_action(actions: &mut Vec<Action>, action: Action)
    ensures
        contents(final(actions)@) == contents(old(actions)@).push(action@),
{
    actions.push(action);
    assert(contents(actions@) =~= contents(old(actions)@).push(action@));
}

/// Appends the alert, if there is one, to a list.
pub open spec fn with_alert(actions: Seq<ActionView>, alert: Option<AlertView>) -> Seq<ActionView> {
    match alert {
        Some(alert) => actions.push(ActionView::SendAlert { alert }),
        None => actions,
    }
}

/// Appends the alert, if there is one, to a list, and tells whether there was.
pub fn add_alert(actions: &mut Vec<Action>, alert: Option<Alert>) -> (sent: bool)
    ensures
        contents(final(actions)@) == with_alert(
            contents(old(actions)@),
            match alert {
                Some(a) => Some(a@),
                None => None,
            },
        ),
        sent == alert is Some,
{
    match alert {
        Some(alert) => {
            add_action(actions, Action::SendAlert { alert });
            true
        },
        None => false,
    }
}

/// Appends the run of a script on a block and a job, if the script is
/// configured.
pub open spec fn with_hook(
    actions: Seq<ActionView>,
    script: Option<String>,
    block_number: u64,
    job_id: Seq<char>,
) -> Seq<ActionView> {
    match script {
        Some(script) => actions.push(
            ActionView::RunHook {
                script: script@,
                args: seq![decimal(block_number as nat), job_id],
            },
        ),
        None => actions,
    }
}

/// Appends the run of a script on a block and a job, if the script is
/// configured.
pub fn add_hook(
    actions: &mut Vec<Action>,
    script: &Option<String>,
    block_number: u64,
    job_id: &String,
)
    ensures
        contents(final(actions)@) == with_hook(
            contents(old(actions)@),
            *script,
            block_number,
            job_id@,
        ),
{
    match script {
        Some(script) => {
            let mut args: Vec<String> = Vec::new();
            args.push(decimal_string(block_number));
            args.push(job_id.clone());
            assert(views(args@) =~= seq![decimal(block_number as nat), job_id@]);
            add_action(actions, Action::RunHook { script: script.clone(), args });
        },
        None => {},
    }
}

/// The contents of a list are those of each action, in their order.
pub proof fn law_contents_of_each(actions: Seq<Action>, i: int)
    requires
        0 <= i < actions.len(),
    ensures
        contents(actions).len() == actions.len(),
        contents(actions)[i] == actions[i]@,
{
}

/// The contents of an action are all of its values.
pub proof fn law_action_contents(action: Action)
    ensures
        action matches Action::ReportQueued { cluster_id, block_number } ==> action@ == (
        ActionView::ReportQueued { cluster_id, block_number }),
        action matches Action::ReportProving { cluster_id, block_number } ==> action@ == (
        ActionView::ReportProving { cluster_id, block_number }),
        action matches Action::ReportProved {
            cluster_id,
            block_number,
            proving_time_ms,
            proving_cycles,
            proof: text,
            job_id,
        } ==> action@ == (ActionView::ReportProved {
            cluster_id,
            block_number,
            proving_time_ms,
            proving_cycles,
            proof: text@,
            job_id: job_id@,
        }),
        action matches Action::RunHook { script, args } ==> (action@ matches ActionView::RunHook {
            script: name,
            args: values,
        } && name == script@ && values.len() == args@.len() && forall|i: int|
            0 <= i < values.len() ==> #[trigger] values[i] == args@[i]@),
        action matches Action::SendAlert { alert } ==> (action@ matches ActionView::SendAlert {
            alert: sent,
        } && sent.message == alert.message@ && sent.alert_type == alert.alert_type),
        action is AwaitAlert <==> action@ is AwaitAlert,
        action matches Action::WriteCsv { row } ==> action@ == (ActionView::WriteCsv {
            row: row@,
        }),
        action matches Action::SaveProof { folder, filename, bytes } ==> action@ == (
        ActionView::SaveProof { folder: folder@, filename: filename@, bytes: bytes@ }),
        action matches Action::InsertProof { entry } ==> action@ == (ActionView::InsertProof {
            entry: entry@,
        }),
        action matches Action::Publish { ops } ==> action@ == (ActionView::Publish { ops: ops@ }),
        action matches Action::DeleteInput { path } ==> action@ == (ActionView::DeleteInput {
            path: path@,
        }),
        action is NotifyProofDone <==> action@ is NotifyProofDone,
        action matches Action::LogSummary { text } ==> action@ == (ActionView::LogSummary {
            text: text@,
        }),
        action matches Action::Panic { message } ==> action@ == (ActionView::Panic {
            message: message@,
        }),
        action matches Action::Exit { code } ==> action@ == (ActionView::Exit { code }),
{
}

} // verus!
