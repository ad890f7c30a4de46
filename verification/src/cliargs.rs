//! The client's command-line arguments as plain values.

use vstd::prelude::*;
use vstd::string::*;

verus! {

/// An event that a Telegram alert can be sent for.
#[derive(Clone, Copy, Debug, PartialEq, Eq, Structural)]
pub enum TelegramEvent {
    Started,
    BlockProved,
    SkippedThreshold,
    ProofFailed,
}

/// Where block inputs come from: an Ethereum node, or a folder of input files.
#[derive(Clone, Copy, Debug, PartialEq, Eq, Structural)]
pub enum InputGen {
    Rpc,
    Folder,
}

/// How hints reach the prover.
#[derive(Clone, Copy, Debug, PartialEq, Eq, Structural)]
pub enum HintsMode {
    File,
    Socket,
}

/// Subcommands of the program.
#[derive(Clone, Copy, Debug, PartialEq, Eq, Structural)]
pub enum Commands {
    InputServer,
}

/// Inputs generation.
#[derive(Clone, Debug)]
pub struct InputsArgs {
    pub mode: InputGen,
    /// Only blocks whose number is a multiple of this value are processed.
    pub block_modulus: u64,
    pub folder: String,
    /// Keep input files after processing them.
    pub keep: bool,
}

/// Connection to the Ethereum node.
#[derive(Clone, Debug)]
pub struct RpcArgs {
    pub http_url: String,
    pub ws_url: String,
}

/// Input generation from a folder.
#[derive(Clone, Debug)]
pub struct FolderArgs {
    pub path: String,
    /// Timestamp of the first input file in seconds; zero stands for now.
    pub initial_timestamp: u64,
    /// Simulated time in milliseconds to make an input.
    pub input_time: u64,
    /// Names of the input files to process; all of them if it is empty.
    pub input_files: Vec<String>,
}

/// The ZisK coordinator.
#[derive(Clone, Debug)]
pub struct CoordinatorArgs {
    pub url: String,
    pub compute_capacity: u32,
}

impl Default for CoordinatorArgs {
    /// A coordinator on this machine.
    fn default() -> (r: Self)
        ensures
            r.url@ == "http://localhost:50051"@,
            r.compute_capacity == 10,
    {
        CoordinatorArgs { url: "http://localhost:50051".to_owned(), compute_capacity: 10 }
    }
}

/// Submission of proofs to EthProofs.
#[derive(Clone, Debug)]
pub struct EthproofsArgs {
    pub submit: bool,
    pub api_url: Option<String>,
    pub api_token: Option<String>,
    pub cluster_id: Option<u32>,
}

/// Telegram alerts.
#[derive(Clone, Debug)]
pub struct TelegramArgs {
    pub alert: Vec<TelegramEvent>,
    pub bot_token: Option<String>,
    pub chat_id: Option<String>,
    pub message_prefix: String,
}

/// Skipped blocks.
#[derive(Clone, Debug)]
pub struct SkippedArgs {
    /// Number of skipped blocks that an alert is sent from.
    pub threshold: u32,
    /// Panic when skipped blocks exceed the threshold.
    pub panic: bool,
}

/// Prometheus metrics server.
#[derive(Clone, Debug)]
pub struct MetricsArgs {
    pub enabled: bool,
    pub port: u16,
}

/// Database of block proofs.
#[derive(Clone, Debug)]
pub struct DbArgs {
    pub enabled: bool,
    pub dsn: Option<String>,
    pub hardware: Option<String>,
    pub zisk_version: Option<String>,
}

/// Scripts to run on events.
#[derive(Clone, Debug)]
pub struct HooksArgs {
    /// Runs when proof generation fails.
    pub proof_failed: Option<String>,
    /// Runs when more blocks are skipped than the threshold.
    pub blocks_skipped: Option<String>,
}

/// Storage of proofs on disk.
#[derive(Clone, Debug)]
pub struct ProofArgs {
    pub save: bool,
    pub folder: String,
    /// File that gets a row for each proved block.
    pub csv: Option<String>,
}

/// Generation of hints for the prover.
#[derive(Clone, Debug)]
pub struct HintsArgs {
    pub mode: HintsMode,
    pub socket: String,
    pub debug: bool,
    pub debug_folder: String,
}

/// Arguments of the input server: the guest program to make inputs for.
#[derive(Clone, Debug)]
pub struct InputGenServerArgs {
    pub guest: String,
}

/// The client's arguments. `hints` is there where the prover takes hints.
#[derive(Clone, Debug)]
pub struct CliArgs {
    pub command: Option<Commands>,
    pub skip_proving: bool,
    pub guest: String,
    pub coordinator_url: String,
    /// Prove timeout in seconds.
    pub prove_timeout: u64,
    /// Wrap the final proof into its compressed variant.
    pub compressed: bool,
    pub exit_on_error: bool,
    /// Maximum run time in minutes.
    pub run_time: Option<u64>,
    pub webhook_port: u16,
    pub inputs: InputsArgs,
    pub rpc: RpcArgs,
    pub folder: FolderArgs,
    pub ethproofs: EthproofsArgs,
    pub telegram: TelegramArgs,
    pub skipped: SkippedArgs,
    pub metrics: MetricsArgs,
    pub db: DbArgs,
    pub proof: ProofArgs,
    pub hooks: HooksArgs,
    pub hints: Option<HintsArgs>,
}

/// A combination of arguments that cannot work.
#[derive(Clone, Copy, Debug, PartialEq, Eq, Structural)]
pub enum ArgsConflict {
    /// Submitting needs real blocks, not replayed inputs.
    SubmitFromFolder,
    /// The run time is driven by the blocks of the node.
    RunTimeWithoutRpc,
}

impl ArgsConflict {
    /// What the user is told.
    pub open spec fn text(self) -> Seq<char> {
        match self {
            ArgsConflict::SubmitFromFolder => "'--ethproofs.submit' cannot be used with '--input.mode folder'"@,
            ArgsConflict::RunTimeWithoutRpc => "'--run-time' can only be used with '--input.mode rpc'"@,
        }
    }

    /// What the user is told.
    pub fn message(&self) -> (r: String)
        ensures
            r@ == self.text(),
            *self == ArgsConflict::SubmitFromFolder ==> r@
                == "'--ethproofs.submit' cannot be used with '--input.mode folder'"@,
            *self == ArgsConflict::RunTimeWithoutRpc ==> r@
                == "'--run-time' can only be used with '--input.mode rpc'"@,
    {
        match self {
            ArgsConflict::SubmitFromFolder => "'--ethproofs.submit' cannot be used with '--input.mode folder'".to_owned(),
            ArgsConflict::RunTimeWithoutRpc => "'--run-time' can only be used with '--input.mode rpc'".to_owned(),
        }
    }
}

impl CliArgs {
    /// Whether an option that is switched on has the values that it needs:
    /// submission its URL, token and cluster, alerts their bot and chat, and
    /// the database its connection, hardware and version.
    pub open spec fn complete(&self) -> bool {
        &&& self.ethproofs.submit ==> self.ethproofs.api_url is Some
            && self.ethproofs.api_token is Some && self.ethproofs.cluster_id is Some
        &&& self.telegram.alert@.len() > 0 ==> self.telegram.bot_token is Some
            && self.telegram.chat_id is Some
        &&& self.db.enabled ==> self.db.dsn is Some && self.db.hardware is Some
            && self.db.zisk_version is Some
    }

    /// Whether an option that is switched on has the values that it needs.
    pub fn is_complete(&self) -> (r: bool)
        ensures
            r == self.complete(),
    {
        let ethproofs = !self.ethproofs.submit || (self.ethproofs.api_url.is_some()
            && self.ethproofs.api_token.is_some() && self.ethproofs.cluster_id.is_some());
        let telegram = self.telegram.alert.len() == 0 || (self.telegram.bot_token.is_some()
            && self.telegram.chat_id.is_some());
        let db = !self.db.enabled || (self.db.dsn.is_some() && self.db.hardware.is_some()
            && self.db.zisk_version.is_some());
        ethproofs && telegram && db
    }

    /// Whether the client can start: submission has its URL and token, and the
    /// database its connection.
    pub open spec fn can_start(&self) -> bool {
        &&& self.ethproofs.submit ==> self.ethproofs.api_url is Some
            && self.ethproofs.api_token is Some
        &&& self.db.enabled ==> self.db.dsn is Some
    }

    /// Whether blocks can be reported: submission has its cluster.
    pub open spec fn can_report(&self) -> bool {
        self.ethproofs.submit ==> self.ethproofs.cluster_id is Some
    }

    /// Whether alerts are sent for an event.
    pub open spec fn alerts(&self, event: TelegramEvent) -> bool {
        self.telegram.alert@.contains(event)
    }

    /// Whether alerts are sent for an event.
    pub fn telegram_enabled(&self, event: TelegramEvent) -> (r: bool)
        ensures
            r == self.alerts(event),
    {
        let mut i: usize = 0;
        while i < self.telegram.alert.len()
            invariant
                i <= self.telegram.alert@.len(),
                forall|j: int| 0 <= j < i ==> self.telegram.alert@[j] != event,
            decreases self.telegram.alert@.len() - i,
        {
            if self.telegram.alert[i] == event {
                return true;
            }
            i = i + 1;
        }
        false
    }

    /// The conflict among the arguments, if any.
    pub open spec fn conflict(&self) -> Option<ArgsConflict> {
        if self.ethproofs.submit && self.inputs.mode == InputGen::Folder {
            Some(ArgsConflict::SubmitFromFolder)
        } else if self.run_time is Some && self.inputs.mode != InputGen::Rpc {
            Some(ArgsConflict::RunTimeWithoutRpc)
        } else {
            None
        }
    }

    /// Rejects combinations of arguments that cannot work.
    pub fn validate(&self) -> (r: Result<(), ArgsConflict>)
        ensures
            match self.conflict() {
                Some(conflict) => r == Err::<(), ArgsConflict>(conflict),
                None => r is Ok,
            },
    {
        // Submitting to EthProofs requires real blocks; the folder mode replays
        // stored inputs and would submit stale or synthetic proofs.
        if self.ethproofs.submit && self.inputs.mode == InputGen::Folder {
            return Err(ArgsConflict::SubmitFromFolder);
        }
        // The run-time limit is driven by the block subscription, so it only
        // makes sense when inputs come from the node.
        if self.run_time.is_some() && self.inputs.mode != InputGen::Rpc {
            return Err(ArgsConflict::RunTimeWithoutRpc);
        }
        Ok(())
    }
}

/// The arguments of a run without any flag.
pub open spec fn is_default(args: &CliArgs) -> bool {
    &&& args.command is None
    &&& !args.skip_proving
    &&& args.guest@ == "./elf/zec-reth.elf"@
    &&& args.coordinator_url@ == "http://localhost:50051"@
    &&& args.prove_timeout == 600
    &&& !args.compressed
    &&& !args.exit_on_error
    &&& args.run_time is None
    &&& args.webhook_port == 8051
    &&& args.inputs.mode == InputGen::Rpc
    &&& args.inputs.block_modulus == 1
    &&& args.inputs.folder@ == "inputs"@
    &&& !args.inputs.keep
    &&& args.rpc.http_url@ == "http://localhost:8545"@
    &&& args.rpc.ws_url@ == "ws://localhost:8546"@
    &&& args.folder.path@ == "inputs_test"@
    &&& args.folder.initial_timestamp == 0
    &&& args.folder.input_time == 0
    &&& args.folder.input_files@.len() == 0
    &&& !args.ethproofs.submit
    &&& args.ethproofs.api_url is None
    &&& args.ethproofs.api_token is None
    &&& args.ethproofs.cluster_id is None
    &&& args.telegram.alert@.len() == 0
    &&& args.telegram.bot_token is None
    &&& args.telegram.chat_id is None
    &&& args.telegram.message_prefix@ == "[EthProofs Client Alert]"@
    &&& args.skipped.threshold == 5
    &&& !args.skipped.panic
    &&& !args.metrics.enabled
    &&& args.metrics.port == 8384
    &&& !args.db.enabled
    &&& args.db.dsn is None
    &&& args.db.hardware is None
    &&& args.db.zisk_version is None
    &&& !args.proof.save
    &&& args.proof.folder@ == "proofs"@
    &&& args.proof.csv is None
    &&& args.hooks.proof_failed is None
    &&& args.hooks.blocks_skipped is None
    &&& args.hints is None
}

impl Default for CliArgs {
    /// The arguments of a run without any flag.
    fn default() -> (r: Self)
        ensures
            is_default(&r),
    {
        CliArgs {
            command: None,
            skip_proving: false,
            guest: "./elf/zec-reth.elf".to_owned(),
            coordinator_url: CoordinatorArgs::default().url,
            prove_timeout: 600,
            compressed: false,
            exit_on_error: false,
            run_time: None,
            webhook_port: 8051,
            inputs: InputsArgs {
                mode: InputGen::Rpc,
                block_modulus: 1,
                folder: "inputs".to_owned(),
                keep: false,
            },
            rpc: RpcArgs {
                http_url: "http://localhost:8545".to_owned(),
                ws_url: "ws://localhost:8546".to_owned(),
            },
            folder: FolderArgs {
                path: "inputs_test".to_owned(),
                initial_timestamp: 0,
                input_time: 0,
                input_files: Vec::new(),
            },
            ethproofs: EthproofsArgs {
                submit: false,
                api_url: None,
                api_token: None,
                cluster_id: None,
            },
            telegram: TelegramArgs {
                alert: Vec::new(),
                bot_token: None,
                chat_id: None,
                message_prefix: "[EthProofs Client Alert]".to_owned(),
            },
            skipped: SkippedArgs { threshold: 5, panic: false },
            metrics: MetricsArgs { enabled: false, port: 8384 },
            db: DbArgs { enabled: false, dsn: None, hardware: None, zisk_version: None },
            proof: ProofArgs { save: false, folder: "proofs".to_owned(), csv: None },
            hooks: HooksArgs { proof_failed: None, blocks_skipped: None },
            hints: None,
        }
    }
}

/// Complete arguments are enough to start and to report blocks.
pub proof fn law_complete_arguments_suffice(args: CliArgs)
    requires
        args.complete(),
    ensures
        args.can_start(),
        args.can_report(),
{
}

/// A run without any flag is complete and free of conflicts.
pub proof fn law_defaults_are_valid(args: CliArgs)
    requires
        is_default(&args),
    ensures
        args.complete(),
        args.conflict() is None,
{
}

/// A run without any flag takes every block.
pub proof fn law_defaults_take_every_block(args: CliArgs, block_number: u64)
    requires
        is_default(&args),
    ensures
        block_number % args.inputs.block_modulus == 0,
{
}

/// Arguments that pass the check submit only proofs of blocks from the node,
/// and limit the run time only there.
pub proof fn law_valid_submission_is_from_rpc(args: CliArgs)
    requires
        args.conflict() is None,
    ensures
        args.ethproofs.submit ==> args.inputs.mode == InputGen::Rpc,
        args.run_time is Some ==> args.inputs.mode == InputGen::Rpc,
{
}

/// Arguments are incomplete exactly if submission is switched on without a URL, a
/// token or a cluster, alerts are asked for without a bot or a chat, or the
/// database is enabled without a connection, a hardware or a version.
pub proof fn law_what_is_incomplete(args: CliArgs)
    ensures
        !args.complete() <==> {
            ||| args.ethproofs.submit && args.ethproofs.api_url is None
            ||| args.ethproofs.submit && args.ethproofs.api_token is None
            ||| args.ethproofs.submit && args.ethproofs.cluster_id is None
            ||| args.telegram.alert@.len() > 0 && args.telegram.bot_token is None
            ||| args.telegram.alert@.len() > 0 && args.telegram.chat_id is None
            ||| args.db.enabled && args.db.dsn is None
            ||| args.db.enabled && args.db.hardware is None
            ||| args.db.enabled && args.db.zisk_version is None
        },
        !args.can_start() <==> {
            ||| args.ethproofs.submit && args.ethproofs.api_url is None
            ||| args.ethproofs.submit && args.ethproofs.api_token is None
            ||| args.db.enabled && args.db.dsn is None
        },
        !args.can_report() <==> args.ethproofs.submit && args.ethproofs.cluster_id is None,
{
}

/// Alerts are sent for an event exactly if it is among those that were asked for.
pub proof fn law_alerts_are_asked_for(args: CliArgs, event: TelegramEvent)
    ensures
        args.alerts(event) <==> exists|i: int|
            0 <= i < args.telegram.alert@.len() && #[trigger] args.telegram.alert@[i] == event,
{
}

/// The two conflicts: to submit what comes from a folder, and to limit the run
/// time of what comes from a folder. The first is the one that is told where there
/// are both, and there is no other.
pub proof fn law_what_conflicts(args: CliArgs)
    ensures
        args.conflict() == Some(ArgsConflict::SubmitFromFolder) <==> args.ethproofs.submit
            && args.inputs.mode == InputGen::Folder,
        args.conflict() == Some(ArgsConflict::RunTimeWithoutRpc) <==> !args.ethproofs.submit
            && args.run_time is Some && args.inputs.mode == InputGen::Folder,
        args.inputs.mode == InputGen::Rpc ==> args.conflict() is None,
        !args.ethproofs.submit && args.run_time is None ==> args.conflict() is None,
{
}

/// The values of a run without any flag.
pub proof fn law_default_values(args: CliArgs)
    requires
        is_default(&args),
    ensures
        args.command is None,
        !args.skip_proving,
        args.guest@ == "./elf/zec-reth.elf"@,
        args.coordinator_url@ == "http://localhost:50051"@,
        args.prove_timeout == 600,
        !args.compressed,
        !args.exit_on_error,
        args.run_time is None,
        args.webhook_port == 8051,
        args.inputs.mode == InputGen::Rpc,
        args.inputs.block_modulus == 1,
        args.inputs.folder@ == "inputs"@,
        !args.inputs.keep,
        args.rpc.http_url@ == "http://localhost:8545"@,
        args.rpc.ws_url@ == "ws://localhost:8546"@,
        args.folder.path@ == "inputs_test"@,
        args.folder.initial_timestamp == 0,
        args.folder.input_time == 0,
        args.folder.input_files@.len() == 0,
        !args.ethproofs.submit,
        args.ethproofs.api_url is None,
        args.ethproofs.api_token is None,
        args.ethproofs.cluster_id is None,
        args.telegram.alert@.len() == 0,
        args.telegram.bot_token is None,
        args.telegram.chat_id is None,
        args.telegram.message_prefix@ == "[EthProofs Client Alert]"@,
        args.skipped.threshold == 5,
        !args.skipped.panic,
        !args.metrics.enabled,
        args.metrics.port == 8384,
        !args.db.enabled,
        args.db.dsn is None,
        args.db.hardware is None,
        args.db.zisk_version is None,
        !args.proof.save,
        args.proof.folder@ == "proofs"@,
        args.proof.csv is None,
        args.hooks.proof_failed is None,
        args.hooks.blocks_skipped is None,
        args.hints is None,
{
}

} // verus!
