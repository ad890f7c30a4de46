//! Proves blocks one at a time, each from its header to its submission.

use vstd::prelude::*;
use vstd::string::*;

use crate::telegram::{Alert, AlertType};
#[allow(unused_imports)]
use crate::telegram::{alert_view, AlertView};
#[allow(unused_imports)]
use crate::text::{decimal, parse_u64};
use crate::text::{parse_u64_chars, push_decimal, to_chars};

verus! {

/// How blocks are proved one at a time.
#[derive(Clone, Copy, Debug, PartialEq, Eq, Structural)]
pub struct SingleArgs {
    /// Only prove: report nothing to EthProofs.
    pub no_ethproofs: bool,
    /// Send an alert for every submitted proof.
    pub block_submit_alert: bool,
    /// Prove this block alone.
    pub test_block: Option<u64>,
}

/// The cluster that proofs are submitted for, from a setting; none if it is not
/// a number of 32 bits.
pub fn cluster_id(setting: &String) -> (r: Option<u32>)
    ensures
        r == match parse_u64(setting@) {
            Some(id) if id <= u32::MAX => Some(id as u32),
            _ => None,
        },
{
    let chars = to_chars(setting.as_str());
    assert(chars@.subrange(0, chars@.len() as int) =~= setting@);
    match parse_u64_chars(&chars, 0, chars.len()) {
        Some(id) if id <= u32::MAX as u64 => Some(id as u32),
        _ => None,
    }
}

/// A stage of a block. If it fails, those behind it are left out.
#[derive(Clone, Copy, Debug, PartialEq, Eq, Structural)]
pub enum Stage {
    FetchBlock,
    ReportQueued,
    MakeInput,
    ReportProving,
    MakeProof,
    EncodeProof,
    SubmitProof,
    SendAlert,
}

/// The stages of a block in their order.
pub open spec fn stages_of(args: SingleArgs) -> Seq<Stage> {
    let work = if args.no_ethproofs {
        seq![Stage::FetchBlock, Stage::MakeInput, Stage::MakeProof, Stage::EncodeProof]
    } else {
        seq![
            Stage::FetchBlock,
            Stage::ReportQueued,
            Stage::MakeInput,
            Stage::ReportProving,
            Stage::MakeProof,
            Stage::EncodeProof,
            Stage::SubmitProof,
        ]
    };
    if args.block_submit_alert {
        work.push(Stage::SendAlert)
    } else {
        work
    }
}

/// The stages of a block in their order.
pub fn stages(args: &SingleArgs) -> (r: Vec<Stage>)
    ensures
        r@ == stages_of(*args),
{
    let mut stages: Vec<Stage> = Vec::new();
    stages.push(Stage::FetchBlock);
    if !args.no_ethproofs {
        stages.push(Stage::ReportQueued);
    }
    stages.push(Stage::MakeInput);
    if !args.no_ethproofs {
        stages.push(Stage::ReportProving);
    }
    stages.push(Stage::MakeProof);
    stages.push(Stage::EncodeProof);
    if !args.no_ethproofs {
        stages.push(Stage::SubmitProof);
    }
    if args.block_submit_alert {
        stages.push(Stage::SendAlert);
    }
    assert(stages@ =~= stages_of(*args));
    stages
}

/// The alert of a proof that went through all stages.
pub fn submitted_alert(
    block_number: u64,
    tx_count: usize,
    gas_used: u64,
    cycles: u64,
    proving_time_ms: u64,
) -> (r: Alert)
    ensures
        r@ == (AlertView {
            message: "Proof submitted for block number "@ + decimal(block_number as nat)
                + ", txs: "@ + decimal(tx_count as nat) + ", gas: "@ + decimal(gas_used as nat)
                + ", cycles: "@ + decimal(cycles as nat) + ", proving_time: "@ + decimal(
                (proving_time_ms / 1000) as nat,
            ),
            alert_type: AlertType::Success,
        }),
{
    let mut message = "Proof submitted for block number ".to_owned();
    push_decimal(&mut message, block_number);
    message.append(", txs: ");
    push_decimal(&mut message, tx_count as u64);
    message.append(", gas: ");
    push_decimal(&mut message, gas_used);
    message.append(", cycles: ");
    push_decimal(&mut message, cycles);
    message.append(", proving_time: ");
    push_decimal(&mut message, proving_time_ms / 1000);
    Alert { message, alert_type: AlertType::Success }
}

/// What is left to do when the stages of a block are over.
#[derive(Debug)]
pub struct RoundEnd {
    /// A folder to remove.
    pub proof_folder: String,
    /// A file to remove.
    pub input_file: String,
    /// An alert to send.
    pub alert: Option<Alert>,
    /// Whether another block follows.
    pub again: bool,
}

/// Ends the round of a block: its files are removed, an error is alerted, and
/// another block follows unless this one was a test.
pub fn end_round(args: &SingleArgs, block_number: u64, error: &Option<String>) -> (r: RoundEnd)
    ensures
        r.proof_folder@ == "proof"@ + "/"@ + decimal(block_number as nat),
        r.input_file@ == "input"@ + "/"@ + decimal(block_number as nat) + ".bin"@,
        alert_view(r.alert) == match *error {
            Some(e) => Some(
                AlertView {
                    message: "Error processing block "@ + decimal(block_number as nat)
                        + ", error: "@ + e@,
                    alert_type: AlertType::Error,
                },
            ),
            None => None,
        },
        r.again == args.test_block is None,
{
    let mut proof_folder = "proof".to_owned();
    proof_folder.append("/");
    push_decimal(&mut proof_folder, block_number);
    let mut input_file = "input".to_owned();
    input_file.append("/");
    push_decimal(&mut input_file, block_number);
    input_file.append(".bin");
    let alert = match error {
        Some(e) => {
            let mut message = "Error processing block ".to_owned();
            push_decimal(&mut message, block_number);
            message.append(", error: ");
            message.append(e.as_str());
            Some(Alert { message, alert_type: AlertType::Error })
        },
        None => None,
    };
    RoundEnd { proof_folder, input_file, alert, again: args.test_block.is_none() }
}

/// A client that only proves reports nothing to EthProofs; any other one reports
/// a block as queued before its input is made, as being proved before its proof
/// is made, and submits the proof once it is encoded.
pub proof fn law_reports_follow_the_work(args: SingleArgs, i: int)
    requires
        0 <= i < stages_of(args).len(),
    ensures
        args.no_ethproofs ==> stages_of(args)[i] != Stage::ReportQueued && stages_of(args)[i]
            != Stage::ReportProving && stages_of(args)[i] != Stage::SubmitProof,
        !args.no_ethproofs && stages_of(args)[i] == Stage::MakeInput ==> i > 0 && stages_of(args)[i
            - 1] == Stage::ReportQueued,
        !args.no_ethproofs && stages_of(args)[i] == Stage::MakeProof ==> i > 0 && stages_of(args)[i
            - 1] == Stage::ReportProving,
        stages_of(args)[i] == Stage::SubmitProof ==> i > 0 && stages_of(args)[i - 1]
            == Stage::EncodeProof,
{
}

/// How often a stage occurs.
pub open spec fn occurrences(stages: Seq<Stage>, stage: Stage) -> nat
    decreases stages.len(),
{
    if stages.len() == 0 {
        0
    } else {
        occurrences(stages.drop_last(), stage) + if stages.last() == stage {
            1nat
        } else {
            0
        }
    }
}

/// Whether every occurrence of a stage lies before every one of another.
pub open spec fn comes_before(stages: Seq<Stage>, a: Stage, b: Stage) -> bool {
    forall|i: int, j: int|
        0 <= i < stages.len() && 0 <= j < stages.len() && #[trigger] stages[i] == a
            && #[trigger] stages[j] == b ==> i < j
}

/// In every configuration a block is fetched, its input and its proof are made
/// and the proof is encoded, once each and in this order. Unless the client only
/// proves, the block is reported before its input is made and before its proof
/// is made, and the proof is submitted once, directly after it is encoded,
/// whether or not alerts are sent. The alert comes exactly when it is asked for,
/// after all of them.
pub proof fn law_stages_are_complete(args: SingleArgs)
    ensures
        occurrences(stages_of(args), Stage::FetchBlock) == 1,
        occurrences(stages_of(args), Stage::MakeInput) == 1,
        occurrences(stages_of(args), Stage::MakeProof) == 1,
        occurrences(stages_of(args), Stage::EncodeProof) == 1,
        occurrences(stages_of(args), Stage::ReportQueued) == if args.no_ethproofs {
            0nat
        } else {
            1
        },
        occurrences(stages_of(args), Stage::ReportProving) == if args.no_ethproofs {
            0nat
        } else {
            1
        },
        occurrences(stages_of(args), Stage::SubmitProof) == if args.no_ethproofs {
            0nat
        } else {
            1
        },
        occurrences(stages_of(args), Stage::SendAlert) == if args.block_submit_alert {
            1nat
        } else {
            0
        },
        comes_before(stages_of(args), Stage::FetchBlock, Stage::ReportQueued),
        comes_before(stages_of(args), Stage::FetchBlock, Stage::MakeInput),
        comes_before(stages_of(args), Stage::ReportQueued, Stage::MakeInput),
        comes_before(stages_of(args), Stage::MakeInput, Stage::ReportProving),
        comes_before(stages_of(args), Stage::MakeInput, Stage::MakeProof),
        comes_before(stages_of(args), Stage::ReportProving, Stage::MakeProof),
        comes_before(stages_of(args), Stage::MakeProof, Stage::EncodeProof),
        comes_before(stages_of(args), Stage::EncodeProof, Stage::SubmitProof),
        comes_before(stages_of(args), Stage::EncodeProof, Stage::SendAlert),
        comes_before(stages_of(args), Stage::SubmitProof, Stage::SendAlert),
        forall|i: int|
            0 <= i < stages_of(args).len() && !args.no_ethproofs && #[trigger] stages_of(args)[i]
                == Stage::EncodeProof ==> i + 1 < stages_of(args).len() && stages_of(args)[i + 1]
                == Stage::SubmitProof,
{
    lemma_stage_counts(args, Stage::FetchBlock);
    lemma_stage_counts(args, Stage::MakeInput);
    lemma_stage_counts(args, Stage::MakeProof);
    lemma_stage_counts(args, Stage::EncodeProof);
    lemma_stage_counts(args, Stage::ReportQueued);
    lemma_stage_counts(args, Stage::ReportProving);
    lemma_stage_counts(args, Stage::SubmitProof);
    lemma_stage_counts(args, Stage::SendAlert);
}

proof fn lemma_occurrences_push(stages: Seq<Stage>, last: Stage, stage: Stage)
    ensures
        occurrences(stages.push(last), stage) == occurrences(stages, stage) + if last == stage {
            1nat
        } else {
            0
        },
{
    assert(stages.push(last).drop_last() =~= stages);
}

proof fn lemma_stage_counts(args: SingleArgs, stage: Stage)
    ensures
        occurrences(stages_of(args), stage) == match stage {
            Stage::FetchBlock | Stage::MakeInput | Stage::MakeProof | Stage::EncodeProof => 1nat,
            Stage::ReportQueued | Stage::ReportProving | Stage::SubmitProof => if args.no_ethproofs {
                0nat
            } else {
                1
            },
            Stage::SendAlert => if args.block_submit_alert {
                1nat
            } else {
                0
            },
        },
{
    let none = Seq::<Stage>::empty();
    let a = none.push(Stage::FetchBlock);
    lemma_occurrences_push(none, Stage::FetchBlock, stage);
    let b = if args.no_ethproofs {
        a
    } else {
        a.push(Stage::ReportQueued)
    };
    lemma_occurrences_push(a, Stage::ReportQueued, stage);
    let c = b.push(Stage::MakeInput);
    lemma_occurrences_push(b, Stage::MakeInput, stage);
    let d = if args.no_ethproofs {
        c
    } else {
        c.push(Stage::ReportProving)
    };
    lemma_occurrences_push(c, Stage::ReportProving, stage);
    let e = d.push(Stage::MakeProof).push(Stage::EncodeProof);
    lemma_occurrences_push(d, Stage::MakeProof, stage);
    lemma_occurrences_push(d.push(Stage::MakeProof), Stage::EncodeProof, stage);
    let f = if args.no_ethproofs {
        e
    } else {
        e.push(Stage::SubmitProof)
    };
    lemma_occurrences_push(e, Stage::SubmitProof, stage);
    lemma_occurrences_push(f, Stage::SendAlert, stage);
    assert(stages_of(args) =~= if args.block_submit_alert {
        f.push(Stage::SendAlert)
    } else {
        f
    });
}

} // verus!
