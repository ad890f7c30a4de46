//! The client's state: the block being proved, the one queued behind it, and
//! what has been alerted, measured and counted.

use std::collections::HashMap;

use vstd::prelude::*;
use vstd::string::*;

use crate::cliargs::{CliArgs, InputGen};
use crate::codec::EncodingLog;
use crate::metrics::BlockMetrics;
use crate::protocol::BlockInfo;
#[allow(unused_imports)]
use crate::protocol::BlockInfoView;
#[allow(unused_imports)]
use crate::text::decimal;
use crate::text::push_decimal;

verus! {

broadcast use vstd::std_specs::hash::group_hash_axioms;

/// Alerts that have been sent and not been taken back since.
#[derive(Debug, Clone, Copy, PartialEq, Eq, Structural)]
pub struct FiredAlerts {
    pub skipped: bool,
    pub failed: bool,
}

/// The client's state. `S` is the prover's input for a block. Times are
/// nanoseconds on the program's clock.
pub struct AppState<S> {
    pub cliargs: CliArgs,
    /// The block being proved.
    pub proving_block: Option<BlockInfo>,
    /// The block to prove next.
    pub next_proving_block: Option<BlockInfo>,
    /// The input that the next proof is made from.
    pub zisk_stdin: Option<S>,
    pub current_job_id: String,
    pub fired_alerts: FiredAlerts,
    /// Figures of the blocks that are not published yet.
    pub shared_metrics: HashMap<u64, BlockMetrics>,
    /// The value of the block number gauge.
    pub latest_block: i64,
    /// Number of blocks proved in this run.
    pub proved_blocks: u64,
    /// When the client stops taking blocks.
    pub run_deadline: Option<u128>,
    /// The compressions of delivered proofs so far.
    pub encodings: EncodingLog,
}

/// The contents of an [`AppState`], all that decisions are made from. The
/// history of compressions is not among it.
pub struct AppStateView<S> {
    pub cliargs: CliArgs,
    pub proving_block: Option<BlockInfoView>,
    pub next_proving_block: Option<BlockInfoView>,
    pub zisk_stdin: Option<S>,
    pub current_job_id: Seq<char>,
    pub fired_alerts: FiredAlerts,
    pub shared_metrics: Map<u64, BlockMetrics>,
    pub latest_block: i64,
    pub proved_blocks: u64,
    pub run_deadline: Option<u128>,
}

/// The contents of a block, if there is one.
pub open spec fn block_view(block: Option<BlockInfo>) -> Option<BlockInfoView> {
    match block {
        Some(b) => Some(b@),
        None => None,
    }
}

impl<S> View for AppState<S> {
    type V = AppStateView<S>;

    open spec fn view(&self) -> AppStateView<S> {
        AppStateView {
            cliargs: self.cliargs,
            proving_block: block_view(self.proving_block),
            next_proving_block: block_view(self.next_proving_block),
            zisk_stdin: self.zisk_stdin,
            current_job_id: self.current_job_id@,
            fired_alerts: self.fired_alerts,
            shared_metrics: self.shared_metrics@,
            latest_block: self.latest_block,
            proved_blocks: self.proved_blocks,
            run_deadline: self.run_deadline,
        }
    }
}

/// Nanoseconds in a minute.
pub const MINUTE_NS: u128 = 60_000_000_000;

/// When a client stops taking blocks: after its run time, where blocks come
/// from the node.
pub open spec fn deadline(cliargs: CliArgs, now: u128) -> Option<int> {
    if cliargs.inputs.mode == InputGen::Rpc && cliargs.run_time is Some {
        Some(now + cliargs.run_time->0 * MINUTE_NS)
    } else {
        None
    }
}

/// The first row of the file of proved blocks.
pub open spec fn csv_header() -> Seq<char> {
    "timestamp,block_number,mgas,tx_count,steps,proving_time_ms"@
}

/// The row of a proved block in the file of proved blocks.
pub open spec fn csv_row(
    proof_start_ts: Seq<char>,
    block_number: u64,
    mgas: u64,
    tx_count: usize,
    steps: u64,
    proving_time_ms: u64,
) -> Seq<char> {
    proof_start_ts + ","@ + decimal(block_number as nat) + ","@ + decimal(mgas as nat) + ","@
        + decimal(tx_count as nat) + ","@ + decimal(steps as nat) + ","@ + decimal(
        proving_time_ms as nat,
    )
}

/// How the prover is set up.
#[derive(Debug)]
pub struct ProverSetup {
    pub guest: String,
    pub coordinator_url: String,
    pub with_hints: bool,
}

/// The connection to EthProofs.
#[derive(Debug)]
pub struct EthproofsSetup {
    pub api_url: String,
    pub api_token: String,
}

/// The file of proved blocks and its first row.
#[derive(Debug)]
pub struct CsvSetup {
    pub path: String,
    pub header: String,
}

/// What is set up when the client starts.
#[derive(Debug)]
pub struct Startup {
    pub ethproofs: Option<EthproofsSetup>,
    pub prover: Option<ProverSetup>,
    pub db_dsn: Option<String>,
    pub csv: Option<CsvSetup>,
    pub hints_debug_folder: Option<String>,
}

/// Decides what is set up when the client starts: EthProofs if proofs are
/// submitted, the prover unless proving is skipped, the database, the file of
/// proved blocks and the folder of debug hints if they are configured.
pub fn startup(cliargs: &CliArgs) -> (r: Startup)
    requires
        cliargs.can_start(),
    ensures
        match r.ethproofs {
            Some(setup) => cliargs.ethproofs.submit && setup.api_url@
                == cliargs.ethproofs.api_url->0@ && setup.api_token@
                == cliargs.ethproofs.api_token->0@,
            None => !cliargs.ethproofs.submit,
        },
        match r.prover {
            Some(setup) => !cliargs.skip_proving && setup.guest@ == cliargs.guest@
                && setup.coordinator_url@ == cliargs.coordinator_url@ && setup.with_hints
                == cliargs.hints is Some,
            None => cliargs.skip_proving,
        },
        match r.db_dsn {
            Some(dsn) => cliargs.db.enabled && dsn@ == cliargs.db.dsn->0@,
            None => !cliargs.db.enabled,
        },
        match r.csv {
            Some(setup) => cliargs.proof.csv is Some && setup.path@ == cliargs.proof.csv->0@
                && setup.header@ == csv_header(),
            None => cliargs.proof.csv is None,
        },
        match r.hints_debug_folder {
            Some(folder) => cliargs.hints is Some && cliargs.hints->0.debug && folder@
                == cliargs.hints->0.debug_folder@,
            None => cliargs.hints is None || !cliargs.hints->0.debug,
        },
{
    let ethproofs = if cliargs.ethproofs.submit {
        match (&cliargs.ethproofs.api_url, &cliargs.ethproofs.api_token) {
            (Some(api_url), Some(api_token)) => Some(
                EthproofsSetup { api_url: api_url.clone(), api_token: api_token.clone() },
            ),
            _ => None,
        }
    } else {
        None
    };
    let prover = if cliargs.skip_proving {
        None
    } else {
        Some(
            ProverSetup {
                guest: cliargs.guest.clone(),
                coordinator_url: cliargs.coordinator_url.clone(),
                with_hints: cliargs.hints.is_some(),
            },
        )
    };
    let db_dsn = if cliargs.db.enabled {
        match &cliargs.db.dsn {
            Some(dsn) => Some(dsn.clone()),
            None => None,
        }
    } else {
        None
    };
    let csv = match &cliargs.proof.csv {
        Some(path) => Some(
            CsvSetup {
                path: path.clone(),
                header: "timestamp,block_number,mgas,tx_count,steps,proving_time_ms".to_owned(),
            },
        ),
        None => None,
    };
    let hints_debug_folder = match &cliargs.hints {
        Some(hints) => if hints.debug {
            Some(hints.debug_folder.clone())
        } else {
            None
        },
        None => None,
    };
    Startup { ethproofs, prover, db_dsn, csv, hints_debug_folder }
}

/// The location of a guest program on disk.
pub fn guest_uri(guest_path: &str) -> (r: String)
    ensures
        r@ == "file://"@ + guest_path@,
{
    let mut uri = "file://".to_owned();
    uri.append(guest_path);
    uri
}

/// The state of a client that has not seen a block yet.
pub open spec fn initial_state<S>(cliargs: CliArgs, now: u128) -> AppStateView<S> {
    AppStateView {
        cliargs,
        proving_block: None,
        next_proving_block: None,
        zisk_stdin: None,
        current_job_id: Seq::empty(),
        fired_alerts: FiredAlerts { skipped: false, failed: false },
        shared_metrics: Map::empty(),
        latest_block: 0,
        proved_blocks: 0,
        run_deadline: match deadline(cliargs, now) {
            Some(at) => Some(at as u128),
            None => None,
        },
    }
}

/// Whether a deadline, if there is one, has passed.
pub open spec fn deadline_passed(run_deadline: Option<u128>, now: u128) -> bool {
    run_deadline is Some && now >= run_deadline->0
}

/// The summary of a run.
pub open spec fn summary(proved_blocks: u64) -> Seq<char> {
    "Proved "@ + decimal(proved_blocks as nat) + " block(s) successfully during this run"@
}

/// The path of an input file.
pub open spec fn input_path(cliargs: CliArgs, filename: Seq<char>) -> Seq<char> {
    cliargs.inputs.folder@ + "/"@ + filename
}

impl<S> AppState<S> {
    /// The state of a client that starts now.
    pub fn new(cliargs: CliArgs, now: u128) -> (r: Self)
        requires
            deadline(cliargs, now) is Some ==> deadline(cliargs, now)->0 <= u128::MAX
                && cliargs.run_time->0 * 60 <= u64::MAX,
        ensures
            r@ == initial_state::<S>(cliargs, now),
            r.encodings@.len() == 0,
    {
        let run_deadline: Option<u128> = if cliargs.inputs.mode == InputGen::Rpc {
            match cliargs.run_time {
                Some(minutes) => {
                    assert(deadline(cliargs, now) is Some);
                    Some(now + minutes as u128 * MINUTE_NS)
                },
                None => None,
            }
        } else {
            None
        };
        AppState {
            cliargs,
            proving_block: None,
            next_proving_block: None,
            zisk_stdin: None,
            current_job_id: String::new(),
            fired_alerts: FiredAlerts { skipped: false, failed: false },
            shared_metrics: HashMap::new(),
            latest_block: 0,
            proved_blocks: 0,
            run_deadline,
            encodings: EncodingLog::new(),
        }
    }

    /// Whether the run time is over.
    pub open spec fn past_deadline(&self, now: u128) -> bool {
        deadline_passed(self.run_deadline, now)
    }

    /// Whether the run time is over.
    pub fn deadline_reached(&self, now: u128) -> (r: bool)
        ensures
            r == self.past_deadline(now),
    {
        match self.run_deadline {
            Some(at) => now >= at,
            None => false,
        }
    }

    /// Counts a proved block, and gives its row for the file of proved blocks
    /// if there is one.
    pub fn record_proved_block(
        &mut self,
        proof_start_ts: &str,
        block_number: u64,
        mgas: u64,
        tx_count: usize,
        steps: u64,
        proving_time_ms: u64,
    ) -> (r: Option<String>)
        ensures
            final(self)@ == (AppStateView {
                proved_blocks: old(self)@.proved_blocks.wrapping_add(1),
                ..old(self)@
            }),
            r is Some <==> old(self)@.cliargs.proof.csv is Some,
            r is Some ==> r->0@ == csv_row(
                proof_start_ts@,
                block_number,
                mgas,
                tx_count,
                steps,
                proving_time_ms,
            ),
    {
        self.proved_blocks = self.proved_blocks.wrapping_add(1);
        if self.cliargs.proof.csv.is_none() {
            return None;
        }
        let mut row = proof_start_ts.to_owned();
        row.append(",");
        push_decimal(&mut row, block_number);
        row.append(",");
        push_decimal(&mut row, mgas);
        row.append(",");
        push_decimal(&mut row, tx_count as u64);
        row.append(",");
        push_decimal(&mut row, steps);
        row.append(",");
        push_decimal(&mut row, proving_time_ms);
        Some(row)
    }

    /// The summary of the run: the number of blocks proved.
    pub fn log_proved_blocks_summary(&self) -> (r: String)
        ensures
            r@ == summary(self.proved_blocks),
    {
        let mut text = "Proved ".to_owned();
        push_decimal(&mut text, self.proved_blocks);
        text.append(" block(s) successfully during this run");
        text
    }

    /// The path of an input file.
    pub fn input_file_path(&self, filename: &String) -> (r: String)
        ensures
            r@ == input_path(self.cliargs, filename@),
    {
        let mut path = self.cliargs.inputs.folder.clone();
        path.append("/");
        path.append(filename.as_str());
        path
    }

    /// The input file to delete: none if input files are kept.
    pub fn delete_input_file(&self, filename: &String) -> (r: Option<String>)
        ensures
            r is Some <==> !self.cliargs.inputs.keep,
            r is Some ==> r->0@ == input_path(self.cliargs, filename@),
    {
        if self.cliargs.inputs.keep {
            None
        } else {
            Some(self.input_file_path(filename))
        }
    }

    /// Whether skipped blocks have been alerted.
    pub fn skipped_alert(&self) -> (r: bool)
        ensures
            r == self.fired_alerts.skipped,
    {
        self.fired_alerts.skipped
    }

    /// Notes whether skipped blocks have been alerted.
    pub fn set_skipped_alert(&mut self, value: bool)
        ensures
            final(self)@ == (AppStateView {
                fired_alerts: FiredAlerts { skipped: value, ..old(self)@.fired_alerts },
                ..old(self)@
            }),
    {
        self.fired_alerts.skipped = value;
    }

    /// Whether a failed proof has been alerted.
    pub fn failed_alert(&self) -> (r: bool)
        ensures
            r == self.fired_alerts.failed,
    {
        self.fired_alerts.failed
    }

    /// Notes whether a failed proof has been alerted.
    pub fn set_failed_alert(&mut self, value: bool)
        ensures
            final(self)@ == (AppStateView {
                fired_alerts: FiredAlerts { failed: value, ..old(self)@.fired_alerts },
                ..old(self)@
            }),
    {
        self.fired_alerts.failed = value;
    }
}

/// The contents of a state are those of its fields.
pub proof fn law_state_contents<S>(state: AppState<S>)
    ensures
        state@.cliargs == state.cliargs,
        state.proving_block is Some <==> state@.proving_block is Some,
        state.proving_block is Some ==> state@.proving_block->0 == state.proving_block->0@,
        state.next_proving_block is Some <==> state@.next_proving_block is Some,
        state.next_proving_block is Some ==> state@.next_proving_block->0
            == state.next_proving_block->0@,
        state@.zisk_stdin == state.zisk_stdin,
        state@.current_job_id == state.current_job_id@,
        state@.fired_alerts == state.fired_alerts,
        state@.shared_metrics == state.shared_metrics@,
        state@.latest_block == state.latest_block,
        state@.proved_blocks == state.proved_blocks,
        state@.run_deadline == state.run_deadline,
{
}

/// A client that starts is proving nothing, has nothing queued, alerted, measured
/// or proved. It has a deadline exactly if its blocks come from the node and its
/// run time is limited: that many minutes from now, in nanoseconds.
pub proof fn law_start<S>(cliargs: CliArgs, now: u128)
    requires
        cliargs.run_time is Some ==> now + cliargs.run_time->0 * 60_000_000_000 <= u128::MAX,
    ensures
        ({
            let s = initial_state::<S>(cliargs, now);
            &&& s.cliargs == cliargs
            &&& s.proving_block is None
            &&& s.next_proving_block is None
            &&& s.zisk_stdin is None
            &&& s.current_job_id.len() == 0
            &&& !s.fired_alerts.skipped
            &&& !s.fired_alerts.failed
            &&& forall|n: u64| !#[trigger] s.shared_metrics.contains_key(n)
            &&& s.latest_block == 0
            &&& s.proved_blocks == 0
            &&& s.run_deadline is Some <==> cliargs.inputs.mode == InputGen::Rpc
                && cliargs.run_time is Some
            &&& s.run_deadline is Some ==> s.run_deadline->0 == now + cliargs.run_time->0
                * 60_000_000_000
            &&& deadline(cliargs, now) == match s.run_deadline {
                Some(at) => Some(at as int),
                None => None,
            }
        }),
{
}

/// The run time is over from the deadline on, and never without one.
pub proof fn law_deadline_passes<S>(state: AppState<S>, now: u128)
    ensures
        state.run_deadline is None ==> !state.past_deadline(now),
        state.run_deadline matches Some(at) ==> (state.past_deadline(now) <==> now >= at),
        deadline_passed(state.run_deadline, now) == state.past_deadline(now),
{
}

/// The texts of a state: the summary names the number of proved blocks, the path
/// of an input file its folder, and the row of a proved block its figures in the
/// order of the header.
pub proof fn law_state_texts(
    cliargs: CliArgs,
    name: Seq<char>,
    start: Seq<char>,
    n: u64,
    mgas: u64,
    tx_count: usize,
    steps: u64,
    time: u64,
)
    ensures
        summary(n) == "Proved "@ + decimal(n as nat) + " block(s) successfully during this run"@,
        input_path(cliargs, name) == cliargs.inputs.folder@ + "/"@ + name,
        csv_header() == "timestamp,block_number,mgas,tx_count,steps,proving_time_ms"@,
        csv_row(start, n, mgas, tx_count, steps, time) == start + ","@ + decimal(n as nat) + ","@
            + decimal(mgas as nat) + ","@ + decimal(tx_count as nat) + ","@ + decimal(steps as nat)
            + ","@ + decimal(time as nat),
{
}

} // verus!
