//! Proof results that the coordinator delivers over HTTP.

use vstd::prelude::*;
use vstd::string::*;

use crate::action::{add_alert, Action};
#[allow(unused_imports)]
use crate::action::{contents, with_alert, ActionView};
#[allow(unused_imports)]
use crate::cliargs::TelegramEvent;
#[allow(unused_imports)]
use crate::codec::{
    base64_bytes, base64_standard, compressed_text, encodable, law_base64_decodes, words_be,
    words_le, zstd_frame, COMPRESSION_LEVEL,
};
use crate::codec::{encode_compressed, frame_text, CompressError};
use crate::protocol::BlockInfo;
#[allow(unused_imports)]
use crate::protocol::BlockInfoView;
use crate::prove::{
    add_deletion, add_entry, advance_queue, publish_failure, publish_success, NextBlock,
};
#[allow(unused_imports)]
use crate::prove::{
    failure_published, queue_advanced, success_published, times_add_up, with_deletion, with_entry,
};
use crate::state::AppState;
#[allow(unused_imports)]
use crate::state::{input_path, AppStateView};
use crate::telegram::{send_block_proved_alert, send_proof_failed_alert};
#[allow(unused_imports)]
use crate::telegram::{alert_for, block_proved_message, AlertType};
#[allow(unused_imports)]
use crate::text::decimal;
use crate::text::push_decimal;

verus! {

/// The base64 text of a proof, compressed.
pub fn get_proof_b64(proof_data: &[u64]) -> (r: Result<String, CompressError>)
    ensures
        r matches Ok(text) ==> text@ == compressed_text(words_le(proof_data@)) || text@
            == compressed_text(words_be(proof_data@)),
        r matches Err(CompressError::TooLong) ==> !encodable(
            zstd_frame(words_le(proof_data@), COMPRESSION_LEVEL).len(),
        ) || !encodable(zstd_frame(words_be(proof_data@), COMPRESSION_LEVEL).len()),
{
    encode_compressed(proof_data)
}

/// What the coordinator says of a failed proof.
#[derive(Debug)]
pub struct WebhookError {
    pub code: String,
    pub message: String,
}

/// The result of a proof as the coordinator delivers it.
#[derive(Debug)]
pub struct WebhookPayload {
    pub success: bool,
    pub job_id: String,
    pub duration_ms: u64,
    pub executed_steps: Option<u64>,
    pub proof: Option<Vec<u64>>,
    pub error: Option<WebhookError>,
}

impl WebhookPayload {
    /// The proving time in milliseconds, in 32 bits.
    pub open spec fn proving_time(&self) -> u64 {
        self.duration_ms as u32 as u64
    }

    /// The number of steps of the proof; zero if it is not known.
    pub open spec fn steps(&self) -> u64 {
        match self.executed_steps {
            Some(steps) => steps,
            None => 0,
        }
    }

    /// The code and the message of the error.
    pub open spec fn error_text(&self) -> (Seq<char>, Seq<char>) {
        match self.error {
            Some(error) => (error.code@, error.message@),
            None => ("0"@, "Unknown error"@),
        }
    }

    /// The proving time in milliseconds, in 32 bits.
    pub fn proving_time_ms(&self) -> (r: u64)
        ensures
            r == self.proving_time(),
    {
        self.duration_ms as u32 as u64
    }

    /// The number of steps of the proof; zero if it is not known.
    pub fn proving_cycles(&self) -> (r: u64)
        ensures
            r == self.steps(),
    {
        match self.executed_steps {
            Some(steps) => steps,
            None => 0,
        }
    }
}

/// The block that a result is for: the one being proved, if the result is that
/// of the current job.
pub fn webhook_handler<S>(job_id: &String, app_state: &AppState<S>) -> (r: Option<BlockInfo>)
    ensures
        match r {
            Some(block) => app_state@.proving_block == Some(block@) && app_state@.current_job_id
                == job_id@,
            None => app_state@.proving_block is None || app_state@.current_job_id != job_id@,
        },
{
    match &app_state.proving_block {
        Some(block) => if app_state.current_job_id == *job_id {
            Some(block.clone())
        } else {
            None
        },
        None => None,
    }
}

/// Moves on when a result has been delivered, good or bad: the queued block
/// follows if there is one.
pub fn webhook_received<S>(app_state: &mut AppState<S>) -> (r: Option<NextBlock>)
    ensures
        final(app_state)@ == queue_advanced(old(app_state)@, false),
        match r {
            Some(next) => {
                &&& old(app_state)@.next_proving_block == Some(next.block@)
                &&& next.input_path@ == input_path(
                    old(app_state)@.cliargs,
                    next.block@.filename(),
                )
            },
            None => old(app_state)@.next_proving_block is None,
        },
{
    advance_queue(app_state, false)
}

/// What is said of a failed proof.
pub open spec fn webhook_failed_message(
    block_number: u64,
    job_id: Seq<char>,
    error: (Seq<char>, Seq<char>),
) -> Seq<char> {
    "Failed proof for block "@ + decimal(block_number as nat) + ", job: "@ + job_id + ", error: "@
        + error.0 + "-"@ + error.1
}

/// The state and the actions after a failed proof: an alert is sent, and the
/// failure is published.
pub open spec fn webhook_failed<S>(
    s: AppStateView<S>,
    block_number: u64,
    payload: WebhookPayload,
) -> (AppStateView<S>, Seq<ActionView>) {
    failure_published(
        s,
        with_alert(
            Seq::empty(),
            alert_for(
                s.cliargs,
                TelegramEvent::ProofFailed,
                webhook_failed_message(block_number, payload.job_id@, payload.error_text()),
                AlertType::Error,
            ),
        ),
        block_number,
    )
}

/// What is done with a delivered result.
#[derive(Debug)]
pub enum WebhookStep {
    /// Perform the actions; nothing else is left to do.
    Done { actions: Vec<Action> },
    /// The proof has no text: nothing is done.
    Drop,
    /// Submit the proof if there is a submission, then store and publish it.
    Submit { proof_text: String, submission: Option<Action> },
}

/// The submission of a proof to EthProofs, if proofs are submitted.
pub open spec fn webhook_submission<S>(
    s: AppStateView<S>,
    block_number: u64,
    payload: WebhookPayload,
    proof_text: Seq<char>,
) -> Option<ActionView> {
    if s.cliargs.ethproofs.submit {
        Some(
            ActionView::ReportProved {
                cluster_id: s.cliargs.ethproofs.cluster_id->0,
                block_number,
                proving_time_ms: payload.proving_time() as u128,
                proving_cycles: payload.steps(),
                proof: proof_text,
                job_id: payload.job_id@,
            },
        )
    } else {
        None
    }
}

/// Decides what is done with a delivered result, given the text of its proof:
/// a failure is alerted and published, a proof with a text goes on to be
/// submitted.
pub fn process_encoded<S>(
    block_info: &BlockInfo,
    payload: &WebhookPayload,
    encoded: Option<String>,
    app_state: &mut AppState<S>,
) -> (r: WebhookStep)
    requires
        old(app_state)@.cliargs.can_report(),
    ensures
        final(app_state).encodings@ == old(app_state).encodings@,
        payload.success ==> final(app_state)@ == old(app_state)@,
        match r {
            WebhookStep::Done { actions } => !payload.success && (
                final(app_state)@,
                contents(actions@),
            ) == webhook_failed(old(app_state)@, block_info.block_number, *payload),
            WebhookStep::Drop => payload.success && encoded is None,
            WebhookStep::Submit { proof_text, submission } => {
                &&& payload.success
                &&& encoded == Some(proof_text)
                &&& match submission {
                    Some(action) => Some(action@),
                    None => None,
                } == webhook_submission(
                    old(app_state)@,
                    block_info.block_number,
                    *payload,
                    proof_text@,
                )
            },
        },
{
    let block_number: u64 = block_info.block_number;
    if !payload.success {
        let mut actions: Vec<Action> = Vec::new();
        assert(contents(actions@) =~= Seq::<ActionView>::empty());
        let mut message = "Failed proof for block ".to_owned();
        push_decimal(&mut message, block_number);
        message.append(", job: ");
        message.append(payload.job_id.as_str());
        message.append(", error: ");
        match &payload.error {
            Some(error) => {
                message.append(error.code.as_str());
                message.append("-");
                message.append(error.message.as_str());
            },
            None => {
                message.append("0");
                message.append("-");
                message.append("Unknown error");
            },
        }
        let alert = send_proof_failed_alert(app_state, message);
        add_alert(&mut actions, alert);
        publish_failure(&mut actions, app_state, block_number);
        return WebhookStep::Done { actions };
    }
    match encoded {
        Some(proof_text) => {
            let submission = if app_state.cliargs.ethproofs.submit {
                match app_state.cliargs.ethproofs.cluster_id {
                    Some(cluster_id) => Some(
                        Action::ReportProved {
                            cluster_id,
                            block_number,
                            proving_time_ms: payload.proving_time_ms() as u128,
                            proving_cycles: payload.proving_cycles(),
                            proof: proof_text.clone(),
                            job_id: payload.job_id.clone(),
                        },
                    ),
                    None => None,
                }
            } else {
                None
            };
            WebhookStep::Submit { proof_text, submission }
        },
        None => WebhookStep::Drop,
    }
}

/// The text of a delivered proof, given what came of compressing its words.
pub open spec fn delivered_text(payload: WebhookPayload, frame: Option<Seq<u8>>) -> Option<
    Seq<char>,
> {
    if payload.proof is Some && frame is Some && encodable(frame->0.len()) {
        Some(base64_standard(frame->0))
    } else {
        None
    }
}

/// Whether a delivered proof has a text, and which, depends on nothing but its
/// words and what came of compressing them: two deliveries that agree in that
/// have the same text, whatever their times, steps and jobs. Without words there
/// is none; with them there is one exactly if the compression did not fail and
/// its base64 text fits in memory, and it decodes to the compressed bytes.
pub proof fn law_delivered_text_depends_on_words(
    a: WebhookPayload,
    b: WebhookPayload,
    frame: Option<Seq<u8>>,
)
    requires
        a.proof is Some == b.proof is Some,
    ensures
        delivered_text(a, frame) == delivered_text(b, frame),
        a.proof is None ==> delivered_text(a, frame) is None,
        a.proof is Some ==> (delivered_text(a, frame) is Some <==> frame is Some && encodable(
            frame->0.len(),
        )),
        delivered_text(a, frame) is Some ==> base64_bytes(delivered_text(a, frame)->0)
            == frame->0,
{
    if frame is Some {
        law_base64_decodes(frame->0);
    }
}

/// Processes a delivered result: a failure is alerted and published, and a
/// proof that can be compressed and encoded goes on to be submitted. The words of
/// a good proof are compressed once, and nothing but what came of that decides
/// whether it is dropped: not its time, its steps or its job.
pub fn process_webhook<S>(
    block_info: &BlockInfo,
    payload: &WebhookPayload,
    app_state: &mut AppState<S>,
) -> (r: WebhookStep)
    requires
        old(app_state)@.cliargs.can_report(),
    ensures
        payload.success ==> final(app_state)@ == old(app_state)@,
        payload.success && payload.proof is Some ==> {
            let attempt = final(app_state).encodings@.last();
            &&& final(app_state).encodings@ == old(app_state).encodings@.push(attempt)
            &&& attempt.words == payload.proof->0@
            &&& r is Drop <==> attempt.frame is None || !encodable(attempt.frame->0.len())
            &&& r is Drop <==> delivered_text(*payload, attempt.frame) is None
            &&& r matches WebhookStep::Submit { proof_text, .. } ==> base64_bytes(proof_text@)
                == attempt.frame->0
        },
        payload.success && payload.proof is None ==> r is Drop,
        !(payload.success && payload.proof is Some) ==> final(app_state).encodings@
            == old(app_state).encodings@,
        !payload.success ==> r is Done,
        match r {
            WebhookStep::Done { actions } => !payload.success && (
                final(app_state)@,
                contents(actions@),
            ) == webhook_failed(old(app_state)@, block_info.block_number, *payload),
            WebhookStep::Drop => payload.success,
            WebhookStep::Submit { proof_text, submission } => {
                &&& payload.success
                &&& payload.proof is Some
                &&& proof_text@ == compressed_text(words_le(payload.proof->0@)) || proof_text@
                    == compressed_text(words_be(payload.proof->0@))
                &&& match submission {
                    Some(action) => Some(action@),
                    None => None,
                } == webhook_submission(
                    old(app_state)@,
                    block_info.block_number,
                    *payload,
                    proof_text@,
                )
            },
        },
{
    let proof_words = &payload.proof;
    let encoded = match proof_words {
        Some(words) if payload.success => {
            let frame = app_state.encodings.compress(words.as_slice());
            proof {
                if frame is Ok {
                    law_base64_decodes(frame->Ok_0@);
                }
            }
            match frame_text(frame) {
                Ok(text) => Some(text),
                Err(_) => None,
            }
        },
        _ => None,
    };
    process_encoded(block_info, payload, encoded, app_state)
}

/// The state and the actions after a proof has been submitted, or need not be.
/// It is stored, alerted and published as configured, and the block's input is
/// deleted. The time of a submission that failed, or that was not made, is
/// published as zero.
pub open spec fn webhook_stored<S>(
    s: AppStateView<S>,
    block: BlockInfoView,
    payload: WebhookPayload,
    proof_text: Seq<char>,
    submit_time_ms: Option<i64>,
) -> (AppStateView<S>, Seq<ActionView>) {
    let n = block.block_number;
    let stored = with_entry(
        Seq::empty(),
        s.cliargs,
        n,
        proof_text,
        payload.proving_time(),
        payload.steps(),
    );
    let alerted = with_alert(
        stored,
        alert_for(
            s.cliargs,
            TelegramEvent::BlockProved,
            block_proved_message(n, payload.proving_time(), payload.steps()),
            AlertType::Success,
        ),
    );
    let (published, ops) = success_published(
        s,
        alerted,
        n,
        payload.proving_time(),
        payload.steps(),
        match submit_time_ms {
            Some(time) => Some(time),
            None => Some(0i64),
        },
    );
    (published, with_deletion(ops, s.cliargs, block))
}

/// Stores, alerts and publishes a proof once its submission has been handled.
/// `submit_time_ms` is the time that a successful submission took.
pub fn webhook_submitted<S>(
    block_info: &BlockInfo,
    payload: &WebhookPayload,
    proof_text: String,
    submit_time_ms: Option<i64>,
    app_state: &mut AppState<S>,
) -> (r: Vec<Action>)
    requires
        times_add_up(old(app_state)@, block_info.block_number, payload.proving_time()),
    ensures
        (final(app_state)@, contents(r@)) == webhook_stored(
            old(app_state)@,
            block_info@,
            *payload,
            proof_text@,
            submit_time_ms,
        ),
{
    let block_number: u64 = block_info.block_number;
    let proving_time_ms: u64 = payload.proving_time_ms();
    let proving_cycles: u64 = payload.proving_cycles();
    let mut actions: Vec<Action> = Vec::new();
    assert(contents(actions@) =~= Seq::<ActionView>::empty());
    add_entry(
        &mut actions,
        app_state,
        block_number,
        proof_text,
        proving_time_ms,
        proving_cycles,
    );
    let alert = send_block_proved_alert(app_state, block_number, proving_time_ms, proving_cycles);
    add_alert(&mut actions, alert);
    let published_time: i64 = match submit_time_ms {
        Some(time) => time,
        None => 0,
    };
    publish_success(
        &mut actions,
        app_state,
        block_number,
        proving_time_ms,
        proving_cycles,
        Some(published_time),
    );
    add_deletion(&mut actions, app_state, block_info);
    actions
}

/// The address that the webhook server listens on.
pub fn webhook_address(port: u16) -> (r: String)
    ensures
        r@ == "127.0.0.1:"@ + decimal(port as nat),
{
    let mut address = "127.0.0.1:".to_owned();
    push_decimal(&mut address, port as u64);
    address
}

} // verus!
