//! Metrics: what each processed block changes in the published gauges,
//! counters and histograms.

use vstd::prelude::*;
use vstd::string::*;

#[allow(unused_imports)]
use crate::text::decimal;
use crate::text::push_decimal;

verus! {

/// What is known of a block while it is on its way to a proof.
#[derive(Clone, Copy, Debug)]
pub struct BlockMetrics {
    pub block_number: u64,
    pub received_time_ms: i64,
    pub time_to_input_ms: i64,
    pub mgas: u64,
    pub tx_count: u64,
    /// Timestamp of the block in seconds.
    pub timestamp: i64,
    pub proving_time_ms: Option<i64>,
    pub proving_cycles: Option<i64>,
    pub submit_time_ms: Option<i64>,
    pub success: bool,
}

/// The published gauges, each about the latest block.
#[derive(Clone, Copy, Debug, PartialEq, Eq, Structural)]
pub enum Gauge {
    BlockNumber,
    BlockTimestamp,
    Mgas,
    ProvingCycles,
    ProvingTimeMs,
    ReceivedTimeMs,
    SubmitTimeMs,
    TimeToInputMs,
    TxCount,
}

/// The published counters.
#[derive(Clone, Copy, Debug, PartialEq, Eq, Structural)]
pub enum Counter {
    BlocksMissing,
    BlocksReceived,
    ProofFailure,
    ProofSuccess,
    ProvingOver12s,
    ProvingUnder12s,
    TimeToProofOver12s,
    TimeToProofUnder12s,
}

/// The published histograms of times in milliseconds.
#[derive(Clone, Copy, Debug, PartialEq, Eq, Structural)]
pub enum Histogram {
    ProvingTime,
    TimeToInput,
    TimeToProof,
}

/// A change of the published metrics.
#[derive(Clone, Copy, Debug, PartialEq, Eq, Structural)]
pub enum MetricOp {
    SetGauge { gauge: Gauge, value: i64 },
    AddTo { counter: Counter, by: u64 },
    Observe { histogram: Histogram, sample: i128 },
}

/// Times up to this many milliseconds count as under twelve seconds.
pub const SLOT_MS: u64 = 12000;

/// The number of blocks between the latest published one and `current_block`.
/// No block has been published while the gauge is zero.
pub open spec fn missing_blocks(latest: i64, current_block: u64) -> u64 {
    let previous = latest as u64;
    if current_block > previous && previous != 0 {
        (current_block - previous - 1) as u64
    } else {
        0
    }
}

/// The number of blocks missed since the latest published one. `latest` is the
/// value of the block number gauge before the current block sets it.
pub fn compute_missing_diff(latest: i64, current_block: u64) -> (r: u64)
    ensures
        r == missing_blocks(latest, current_block),
{
    let previous_block: u64 = latest as u64;
    if current_block > previous_block && previous_block != 0 {
        current_block - previous_block - 1
    } else {
        0
    }
}

/// A time that is not known is published as zero.
pub open spec fn or_zero(value: Option<i64>) -> i64 {
    match value {
        Some(v) => v,
        None => 0,
    }
}

/// What publishing the figures of a block changes.
pub open spec fn block_gauges(latest: i64, m: BlockMetrics) -> Seq<MetricOp> {
    seq![
        MetricOp::SetGauge { gauge: Gauge::BlockNumber, value: m.block_number as i64 },
        MetricOp::SetGauge { gauge: Gauge::ReceivedTimeMs, value: m.received_time_ms },
        MetricOp::SetGauge { gauge: Gauge::TimeToInputMs, value: m.time_to_input_ms },
        MetricOp::SetGauge { gauge: Gauge::Mgas, value: m.mgas as i64 },
        MetricOp::SetGauge { gauge: Gauge::TxCount, value: m.tx_count as i64 },
        MetricOp::SetGauge { gauge: Gauge::ProvingTimeMs, value: or_zero(m.proving_time_ms) },
        MetricOp::SetGauge { gauge: Gauge::ProvingCycles, value: or_zero(m.proving_cycles) },
        MetricOp::SetGauge { gauge: Gauge::SubmitTimeMs, value: or_zero(m.submit_time_ms) },
        MetricOp::SetGauge { gauge: Gauge::BlockTimestamp, value: m.timestamp },
        MetricOp::AddTo {
            counter: Counter::BlocksMissing,
            by: missing_blocks(latest, m.block_number),
        },
        MetricOp::AddTo { counter: Counter::BlocksReceived, by: 1 },
    ]
}

/// What publishing a block without figures changes.
pub open spec fn empty_block_gauges(latest: i64, block_number: u64) -> Seq<MetricOp> {
    seq![
        MetricOp::SetGauge { gauge: Gauge::BlockNumber, value: block_number as i64 },
        MetricOp::SetGauge { gauge: Gauge::BlockTimestamp, value: 0 },
        MetricOp::SetGauge { gauge: Gauge::SubmitTimeMs, value: 0 },
        MetricOp::SetGauge { gauge: Gauge::Mgas, value: 0 },
        MetricOp::SetGauge { gauge: Gauge::TxCount, value: 0 },
        MetricOp::SetGauge { gauge: Gauge::ProvingTimeMs, value: 0 },
        MetricOp::SetGauge { gauge: Gauge::ProvingCycles, value: 0 },
        MetricOp::SetGauge { gauge: Gauge::TimeToInputMs, value: 0 },
        MetricOp::SetGauge { gauge: Gauge::ReceivedTimeMs, value: 0 },
        MetricOp::AddTo { counter: Counter::BlocksReceived, by: 1 },
        MetricOp::AddTo { counter: Counter::BlocksMissing, by: missing_blocks(latest, block_number) },
    ]
}

/// The time from a block's timestamp to its proof.
pub open spec fn time_to_proof(m: BlockMetrics, proving_time_ms: u64) -> int {
    m.time_to_input_ms + (proving_time_ms as i64)
}

/// What publishing a proved block changes.
pub open spec fn proof_success(latest: i64, m: BlockMetrics, proving_time_ms: u64) -> Seq<
    MetricOp,
> {
    block_gauges(latest, m) + seq![
        MetricOp::AddTo { counter: Counter::ProofSuccess, by: 1 },
        MetricOp::Observe { histogram: Histogram::TimeToInput, sample: m.time_to_input_ms as i128 },
        MetricOp::Observe {
            histogram: Histogram::TimeToProof,
            sample: time_to_proof(m, proving_time_ms) as i128,
        },
        MetricOp::AddTo {
            counter: if time_to_proof(m, proving_time_ms) <= SLOT_MS {
                Counter::TimeToProofUnder12s
            } else {
                Counter::TimeToProofOver12s
            },
            by: 1,
        },
        MetricOp::Observe { histogram: Histogram::ProvingTime, sample: proving_time_ms as i128 },
        MetricOp::AddTo {
            counter: if proving_time_ms <= SLOT_MS {
                Counter::ProvingUnder12s
            } else {
                Counter::ProvingOver12s
            },
            by: 1,
        },
    ]
}

/// What publishing a failed proof changes, with the block's figures if there
/// are any.
pub open spec fn proof_failure(latest: i64, block_number: u64, m: Option<BlockMetrics>) -> Seq<
    MetricOp,
> {
    seq![MetricOp::AddTo { counter: Counter::ProofFailure, by: 1 }] + match m {
        Some(m) => block_gauges(latest, m),
        None => empty_block_gauges(latest, block_number),
    }
}

/// Makes the counters of times under and over twelve seconds appear from the
/// start, by adding zero to them.
pub fn init_counters() -> (r: Vec<MetricOp>)
    ensures
        r@ == seq![
            MetricOp::AddTo { counter: Counter::TimeToProofUnder12s, by: 0 },
            MetricOp::AddTo { counter: Counter::TimeToProofOver12s, by: 0 },
            MetricOp::AddTo { counter: Counter::ProvingUnder12s, by: 0 },
            MetricOp::AddTo { counter: Counter::ProvingOver12s, by: 0 },
        ],
{
    let mut ops: Vec<MetricOp> = Vec::new();
    ops.push(MetricOp::AddTo { counter: Counter::TimeToProofUnder12s, by: 0 });
    ops.push(MetricOp::AddTo { counter: Counter::TimeToProofOver12s, by: 0 });
    ops.push(MetricOp::AddTo { counter: Counter::ProvingUnder12s, by: 0 });
    ops.push(MetricOp::AddTo { counter: Counter::ProvingOver12s, by: 0 });
    ops
}

/// Publishes the figures of a block, and counts it and the blocks missed
/// before it.
pub fn publish_block_gauges(latest: i64, metrics: &BlockMetrics) -> (r: Vec<MetricOp>)
    ensures
        r@ == block_gauges(latest, *metrics),
{
    let diff: u64 = compute_missing_diff(latest, metrics.block_number);
    let mut ops: Vec<MetricOp> = Vec::new();
    ops.push(MetricOp::SetGauge { gauge: Gauge::BlockNumber, value: metrics.block_number as i64 });
    ops.push(MetricOp::SetGauge { gauge: Gauge::ReceivedTimeMs, value: metrics.received_time_ms });
    ops.push(MetricOp::SetGauge { gauge: Gauge::TimeToInputMs, value: metrics.time_to_input_ms });
    ops.push(MetricOp::SetGauge { gauge: Gauge::Mgas, value: metrics.mgas as i64 });
    ops.push(MetricOp::SetGauge { gauge: Gauge::TxCount, value: metrics.tx_count as i64 });
    ops.push(
        MetricOp::SetGauge { gauge: Gauge::ProvingTimeMs, value: metrics.proving_time_ms.unwrap_or(0) },
    );
    ops.push(
        MetricOp::SetGauge { gauge: Gauge::ProvingCycles, value: metrics.proving_cycles.unwrap_or(0) },
    );
    ops.push(
        MetricOp::SetGauge { gauge: Gauge::SubmitTimeMs, value: metrics.submit_time_ms.unwrap_or(0) },
    );
    ops.push(MetricOp::SetGauge { gauge: Gauge::BlockTimestamp, value: metrics.timestamp });
    ops.push(MetricOp::AddTo { counter: Counter::BlocksMissing, by: diff });
    ops.push(MetricOp::AddTo { counter: Counter::BlocksReceived, by: 1 });
    ops
}

/// Publishes a block without figures: its number, and zero for the rest.
pub fn publish_empty_block_gauges(latest: i64, block_number: u64) -> (r: Vec<MetricOp>)
    ensures
        r@ == empty_block_gauges(latest, block_number),
{
    let diff: u64 = compute_missing_diff(latest, block_number);
    let mut ops: Vec<MetricOp> = Vec::new();
    ops.push(MetricOp::SetGauge { gauge: Gauge::BlockNumber, value: block_number as i64 });
    ops.push(MetricOp::SetGauge { gauge: Gauge::BlockTimestamp, value: 0 });
    ops.push(MetricOp::SetGauge { gauge: Gauge::SubmitTimeMs, value: 0 });
    ops.push(MetricOp::SetGauge { gauge: Gauge::Mgas, value: 0 });
    ops.push(MetricOp::SetGauge { gauge: Gauge::TxCount, value: 0 });
    ops.push(MetricOp::SetGauge { gauge: Gauge::ProvingTimeMs, value: 0 });
    ops.push(MetricOp::SetGauge { gauge: Gauge::ProvingCycles, value: 0 });
    ops.push(MetricOp::SetGauge { gauge: Gauge::TimeToInputMs, value: 0 });
    ops.push(MetricOp::SetGauge { gauge: Gauge::ReceivedTimeMs, value: 0 });
    ops.push(MetricOp::AddTo { counter: Counter::BlocksReceived, by: 1 });
    ops.push(MetricOp::AddTo { counter: Counter::BlocksMissing, by: diff });
    ops
}

/// Publishes a proved block: its figures, its times, and whether the proof and
/// the way to it took up to twelve seconds.
pub fn publish_proof_success(latest: i64, metrics: &BlockMetrics, proving_time_ms: u64) -> (r: Vec<
    MetricOp,
>)
    requires
        i64::MIN <= time_to_proof(*metrics, proving_time_ms) <= i64::MAX,
    ensures
        r@ == proof_success(latest, *metrics, proving_time_ms),
{
    let mut ops = publish_block_gauges(latest, metrics);
    ops.push(MetricOp::AddTo { counter: Counter::ProofSuccess, by: 1 });

    let to_proof: i64 = metrics.time_to_input_ms + proving_time_ms as i64;
    ops.push(
        MetricOp::Observe {
            histogram: Histogram::TimeToInput,
            sample: metrics.time_to_input_ms as i128,
        },
    );
    ops.push(MetricOp::Observe { histogram: Histogram::TimeToProof, sample: to_proof as i128 });
    if to_proof <= SLOT_MS as i64 {
        ops.push(MetricOp::AddTo { counter: Counter::TimeToProofUnder12s, by: 1 });
    } else {
        ops.push(MetricOp::AddTo { counter: Counter::TimeToProofOver12s, by: 1 });
    }

    ops.push(
        MetricOp::Observe { histogram: Histogram::ProvingTime, sample: proving_time_ms as i128 },
    );
    if proving_time_ms <= SLOT_MS {
        ops.push(MetricOp::AddTo { counter: Counter::ProvingUnder12s, by: 1 });
    } else {
        ops.push(MetricOp::AddTo { counter: Counter::ProvingOver12s, by: 1 });
    }
    assert(ops@ =~= proof_success(latest, *metrics, proving_time_ms));
    ops
}

/// Publishes a failed proof of a block whose figures are known.
pub fn publish_proof_failure_with_metrics(latest: i64, metrics: &BlockMetrics) -> (r: Vec<MetricOp>)
    ensures
        r@ == proof_failure(latest, metrics.block_number, Some(*metrics)),
{
    let mut ops: Vec<MetricOp> = Vec::new();
    ops.push(MetricOp::AddTo { counter: Counter::ProofFailure, by: 1 });
    let mut gauges = publish_block_gauges(latest, metrics);
    ops.append(&mut gauges);
    ops
}

/// Publishes a failed proof of a block of which nothing else is known.
pub fn publish_proof_failure_no_metrics(latest: i64, block_number: u64) -> (r: Vec<MetricOp>)
    ensures
        r@ == proof_failure(latest, block_number, None),
{
    let mut ops: Vec<MetricOp> = Vec::new();
    ops.push(MetricOp::AddTo { counter: Counter::ProofFailure, by: 1 });
    let mut gauges = publish_empty_block_gauges(latest, block_number);
    ops.append(&mut gauges);
    ops
}

/// How much a change adds to a counter.
pub open spec fn adds(op: MetricOp, counter: Counter) -> int {
    match op {
        MetricOp::AddTo { counter: c, by } => if c == counter {
            by as int
        } else {
            0
        },
        _ => 0,
    }
}

/// How much a list of changes adds to a counter.
pub open spec fn added(ops: Seq<MetricOp>, counter: Counter) -> int
    decreases ops.len(),
{
    if ops.len() == 0 {
        0
    } else {
        added(ops.drop_last(), counter) + adds(ops.last(), counter)
    }
}

/// The value of a gauge after a list of changes.
pub open spec fn gauge_after(ops: Seq<MetricOp>, gauge: Gauge, before: i64) -> i64
    decreases ops.len(),
{
    if ops.len() == 0 {
        before
    } else {
        match ops.last() {
            MetricOp::SetGauge { gauge: g, value } => if g == gauge {
                value
            } else {
                gauge_after(ops.drop_last(), gauge, before)
            },
            _ => gauge_after(ops.drop_last(), gauge, before),
        }
    }
}

proof fn lemma_added_concat(a: Seq<MetricOp>, b: Seq<MetricOp>, counter: Counter)
    ensures
        added(a + b, counter) == added(a, counter) + added(b, counter),
    decreases b.len(),
{
    if b.len() == 0 {
        assert(a + b =~= a);
    } else {
        assert((a + b).drop_last() =~= a + b.drop_last());
        lemma_added_concat(a, b.drop_last(), counter);
    }
}

proof fn lemma_added_one(op: MetricOp, counter: Counter)
    ensures
        added(seq![op], counter) == adds(op, counter),
{
    let s = seq![op];
    assert(s.drop_last() =~= Seq::<MetricOp>::empty());
    assert(added(s.drop_last(), counter) == 0);
}

proof fn lemma_added_six(s: Seq<MetricOp>, counter: Counter)
    requires
        s.len() == 6,
    ensures
        added(s, counter) == adds(s[0], counter) + adds(s[1], counter) + adds(s[2], counter)
            + adds(s[3], counter) + adds(s[4], counter) + adds(s[5], counter),
{
    reveal_with_fuel(added, 7);
}

proof fn lemma_added_by_gauges(latest: i64, m: BlockMetrics, counter: Counter)
    ensures
        added(block_gauges(latest, m), counter) == if counter == Counter::BlocksMissing {
            missing_blocks(latest, m.block_number) as int
        } else if counter == Counter::BlocksReceived {
            1
        } else {
            0
        },
{
    reveal_with_fuel(added, 12);
}

proof fn lemma_added_by_empty_gauges(latest: i64, block_number: u64, counter: Counter)
    ensures
        added(empty_block_gauges(latest, block_number), counter) == if counter
            == Counter::BlocksMissing {
            missing_blocks(latest, block_number) as int
        } else if counter == Counter::BlocksReceived {
            1
        } else {
            0
        },
{
    reveal_with_fuel(added, 12);
}

/// A proved block is counted as received and as a success once, and falls on
/// one side of twelve seconds for the proof and for the way to it.
pub proof fn law_success_is_counted_once(latest: i64, m: BlockMetrics, proving_time_ms: u64)
    ensures
        ({
            let ops = proof_success(latest, m, proving_time_ms);
            &&& added(ops, Counter::ProofSuccess) == 1
            &&& added(ops, Counter::ProofFailure) == 0
            &&& added(ops, Counter::BlocksReceived) == 1
            &&& added(ops, Counter::BlocksMissing) == missing_blocks(latest, m.block_number)
            &&& added(ops, Counter::TimeToProofUnder12s) + added(ops, Counter::TimeToProofOver12s)
                == 1
            &&& added(ops, Counter::ProvingUnder12s) + added(ops, Counter::ProvingOver12s) == 1
            &&& added(ops, Counter::ProvingUnder12s) == 1 <==> proving_time_ms <= 12000
        }),
{
    let gauges = block_gauges(latest, m);
    let ops = proof_success(latest, m, proving_time_ms);
    let rest = ops.skip(gauges.len() as int);
    assert(ops =~= gauges + rest);
    assert forall|c: Counter| #[trigger]
        added(ops, c) == added(gauges, c) + adds(rest[0], c) + adds(rest[1], c) + adds(rest[2], c)
            + adds(rest[3], c) + adds(rest[4], c) + adds(rest[5], c) by {
        lemma_added_concat(gauges, rest, c);
        lemma_added_six(rest, c);
    }
    lemma_added_by_gauges(latest, m, Counter::ProofSuccess);
    lemma_added_by_gauges(latest, m, Counter::ProofFailure);
    lemma_added_by_gauges(latest, m, Counter::BlocksReceived);
    lemma_added_by_gauges(latest, m, Counter::BlocksMissing);
    lemma_added_by_gauges(latest, m, Counter::TimeToProofUnder12s);
    lemma_added_by_gauges(latest, m, Counter::TimeToProofOver12s);
    lemma_added_by_gauges(latest, m, Counter::ProvingUnder12s);
    lemma_added_by_gauges(latest, m, Counter::ProvingOver12s);
}

/// A failed proof is counted as received and as a failure once, and on neither
/// side of twelve seconds.
pub proof fn law_failure_is_counted_once(latest: i64, block_number: u64, m: Option<BlockMetrics>)
    requires
        m is Some ==> m->0.block_number == block_number,
    ensures
        ({
            let ops = proof_failure(latest, block_number, m);
            &&& added(ops, Counter::ProofFailure) == 1
            &&& added(ops, Counter::ProofSuccess) == 0
            &&& added(ops, Counter::BlocksReceived) == 1
            &&& added(ops, Counter::BlocksMissing) == missing_blocks(latest, block_number)
            &&& added(ops, Counter::TimeToProofUnder12s) == 0
            &&& added(ops, Counter::TimeToProofOver12s) == 0
            &&& added(ops, Counter::ProvingUnder12s) == 0
            &&& added(ops, Counter::ProvingOver12s) == 0
        }),
{
    let head = seq![MetricOp::AddTo { counter: Counter::ProofFailure, by: 1 }];
    let gauges = match m {
        Some(m) => block_gauges(latest, m),
        None => empty_block_gauges(latest, block_number),
    };
    assert forall|c: Counter|
        #[trigger] added(head + gauges, c) == added(head, c) + added(gauges, c) by {
        lemma_added_concat(head, gauges, c);
    }
    assert forall|c: Counter| #[trigger]
        added(gauges, c) == if c == Counter::BlocksMissing {
            missing_blocks(latest, block_number) as int
        } else if c == Counter::BlocksReceived {
            1
        } else {
            0
        } by {
        match m {
            Some(m) => lemma_added_by_gauges(latest, m, c),
            None => lemma_added_by_empty_gauges(latest, block_number, c),
        }
    }
    lemma_added_one(head[0], Counter::ProofFailure);
    lemma_added_one(head[0], Counter::ProofSuccess);
    lemma_added_one(head[0], Counter::BlocksReceived);
    lemma_added_one(head[0], Counter::BlocksMissing);
    lemma_added_one(head[0], Counter::TimeToProofUnder12s);
    lemma_added_one(head[0], Counter::TimeToProofOver12s);
    lemma_added_one(head[0], Counter::ProvingUnder12s);
    lemma_added_one(head[0], Counter::ProvingOver12s);
}

/// The blocks counted as missing while a run of blocks is published.
pub open spec fn missing_in_run(latest: u64, blocks: Seq<u64>) -> int
    decreases blocks.len(),
{
    if blocks.len() == 0 {
        0
    } else {
        let before = blocks.drop_last();
        missing_in_run(latest, before) + missing_blocks(
            (if before.len() == 0 {
                latest
            } else {
                before.last()
            }) as i64,
            blocks.last(),
        )
    }
}

/// No block goes uncounted: over a run of blocks in increasing order, those
/// received and those counted as missing make up the whole range.
pub proof fn law_every_block_is_counted(latest: u64, blocks: Seq<u64>)
    requires
        0 < latest <= i64::MAX,
        blocks.len() > 0,
        forall|i: int| 0 <= i < blocks.len() ==> latest < #[trigger] blocks[i] <= i64::MAX,
        forall|i: int, j: int| 0 <= i < j < blocks.len() ==> blocks[i] < blocks[j],
    ensures
        blocks.len() + missing_in_run(latest, blocks) == blocks.last() - latest,
    decreases blocks.len(),
{
    let before = blocks.drop_last();
    if before.len() > 0 {
        assert forall|i: int| 0 <= i < before.len() implies latest < #[trigger] before[i]
            <= i64::MAX by {
            assert(before[i] == blocks[i]);
        }
        law_every_block_is_counted(latest, before);
        assert(before.last() == blocks[before.len() - 1]);
        assert(before.last() < blocks.last());
    } else {
        assert(missing_in_run(latest, before) == 0);
        assert(latest < blocks[0]);
    }
}

/// After a block is published, proved or failed, the block number gauge names
/// it.
pub proof fn law_published_block_is_latest(
    latest: i64,
    m: BlockMetrics,
    proving_time_ms: u64,
    known: bool,
)
    ensures
        gauge_after(proof_success(latest, m, proving_time_ms), Gauge::BlockNumber, latest)
            == m.block_number as i64,
        gauge_after(
            proof_failure(
                latest,
                m.block_number,
                if known {
                    Some(m)
                } else {
                    None
                },
            ),
            Gauge::BlockNumber,
            latest,
        ) == m.block_number as i64,
{
    reveal_with_fuel(gauge_after, 18);
}

/// The address that the metrics server listens on.
pub fn metrics_address(port: u16) -> (r: String)
    ensures
        r@ == "0.0.0.0:"@ + decimal(port as nat),
{
    let mut address = "0.0.0.0:".to_owned();
    push_decimal(&mut address, port as u64);
    address
}

/// The samples that a list of changes hands to a histogram, in their order.
pub open spec fn samples(ops: Seq<MetricOp>, histogram: Histogram) -> Seq<i128>
    decreases ops.len(),
{
    if ops.len() == 0 {
        Seq::empty()
    } else {
        let before = samples(ops.drop_last(), histogram);
        match ops.last() {
            MetricOp::Observe { histogram: h, sample } => if h == histogram {
                before.push(sample)
            } else {
                before
            },
            _ => before,
        }
    }
}

/// The blocks that were missed lie strictly between the latest published one and
/// the current one. None was before the first block, nor where the numbers do
/// not go up.
pub proof fn law_missing_blocks_lie_between(latest: i64, current: u64)
    ensures
        latest == 0 || 0 <= current <= latest ==> missing_blocks(latest, current) == 0,
        0 < latest < current ==> latest + missing_blocks(latest, current) + 1 == current,
        latest < 0 && current <= latest as u64 ==> missing_blocks(latest, current) == 0,
        latest < 0 && current > latest as u64 > 0 ==> (latest as u64) + missing_blocks(
            latest,
            current,
        ) + 1 == current,
{
}

/// A proved block is under twelve seconds by its way to the proof exactly if the
/// time to its input and the proving time together are, and by its proof exactly
/// if the proving time is. Each counter grows by one or not at all. The sum takes
/// the proving time in 64 signed bits.
pub proof fn law_twelve_seconds(latest: i64, m: BlockMetrics, proving_time_ms: u64)
    ensures
        added(proof_success(latest, m, proving_time_ms), Counter::TimeToProofUnder12s) == if
            m.time_to_input_ms + (proving_time_ms as i64) <= 12000 {
            1int
        } else {
            0
        },
        added(proof_success(latest, m, proving_time_ms), Counter::TimeToProofOver12s) == if
            m.time_to_input_ms + (proving_time_ms as i64) <= 12000 {
            0int
        } else {
            1
        },
        added(proof_success(latest, m, proving_time_ms), Counter::ProvingUnder12s) == if
            proving_time_ms <= 12000 {
            1int
        } else {
            0
        },
        added(proof_success(latest, m, proving_time_ms), Counter::ProvingOver12s) == if
            proving_time_ms <= 12000 {
            0int
        } else {
            1
        },
{
    lemma_success_counters(latest, m, proving_time_ms, Counter::TimeToProofUnder12s);
    lemma_success_counters(latest, m, proving_time_ms, Counter::TimeToProofOver12s);
    lemma_success_counters(latest, m, proving_time_ms, Counter::ProvingUnder12s);
    lemma_success_counters(latest, m, proving_time_ms, Counter::ProvingOver12s);
}

proof fn lemma_success_counters(latest: i64, m: BlockMetrics, proving_time_ms: u64, c: Counter)
    ensures
        ({
            let gauges = block_gauges(latest, m);
            let rest = proof_success(latest, m, proving_time_ms).skip(gauges.len() as int);
            added(proof_success(latest, m, proving_time_ms), c) == added(gauges, c) + adds(
                rest[0],
                c,
            ) + adds(rest[1], c) + adds(rest[2], c) + adds(rest[3], c) + adds(rest[4], c) + adds(
                rest[5],
                c,
            )
        }),
        added(block_gauges(latest, m), c) == if c == Counter::BlocksMissing {
            missing_blocks(latest, m.block_number) as int
        } else if c == Counter::BlocksReceived {
            1
        } else {
            0
        },
{
    let gauges = block_gauges(latest, m);
    let ops = proof_success(latest, m, proving_time_ms);
    let rest = ops.skip(gauges.len() as int);
    assert(ops =~= gauges + rest);
    lemma_added_concat(gauges, rest, c);
    lemma_added_six(rest, c);
    lemma_added_by_gauges(latest, m, c);
}

/// A proved block is observed once in each histogram, with the time to its
/// input, the time to its proof and the proving time.
pub proof fn law_histograms_take_the_times(latest: i64, m: BlockMetrics, proving_time_ms: u64)
    ensures
        samples(proof_success(latest, m, proving_time_ms), Histogram::TimeToInput) == seq![
            m.time_to_input_ms as i128,
        ],
        samples(proof_success(latest, m, proving_time_ms), Histogram::TimeToProof) == seq![
            (m.time_to_input_ms + (proving_time_ms as i64)) as i128,
        ],
        samples(proof_success(latest, m, proving_time_ms), Histogram::ProvingTime) == seq![
            proving_time_ms as i128,
        ],
{
    reveal_with_fuel(samples, 18);
}

proof fn lemma_gauge_set_at(ops: Seq<MetricOp>, gauge: Gauge, at: int, before: i64)
    requires
        0 <= at < ops.len(),
        ops[at] is SetGauge,
        ops[at]->gauge == gauge,
        forall|j: int|
            at < j < ops.len() && (#[trigger] ops[j]) is SetGauge ==> ops[j]->gauge != gauge,
    ensures
        gauge_after(ops, gauge, before) == ops[at]->value,
    decreases ops.len(),
{
    if at < ops.len() - 1 {
        let fewer = ops.drop_last();
        assert forall|j: int|
            at < j < fewer.len() && (#[trigger] fewer[j]) is SetGauge implies fewer[j]->gauge
            != gauge by {
            assert(fewer[j] == ops[j]);
        }
        lemma_gauge_set_at(fewer, gauge, at, before);
        assert(ops.last() == ops[ops.len() - 1]);
    }
}

/// The gauges show the figures of the block that was published last, and zero
/// where one is not known.
pub proof fn law_gauges_show_the_block(
    latest: i64,
    m: BlockMetrics,
    proving_time_ms: u64,
    gauge: Gauge,
    before: i64,
)
    ensures
        gauge_after(proof_success(latest, m, proving_time_ms), gauge, before) == match gauge {
            Gauge::BlockNumber => m.block_number as i64,
            Gauge::BlockTimestamp => m.timestamp,
            Gauge::Mgas => m.mgas as i64,
            Gauge::ProvingCycles => match m.proving_cycles {
                Some(cycles) => cycles,
                None => 0,
            },
            Gauge::ProvingTimeMs => match m.proving_time_ms {
                Some(time) => time,
                None => 0,
            },
            Gauge::ReceivedTimeMs => m.received_time_ms,
            Gauge::SubmitTimeMs => match m.submit_time_ms {
                Some(time) => time,
                None => 0,
            },
            Gauge::TimeToInputMs => m.time_to_input_ms,
            Gauge::TxCount => m.tx_count as i64,
        },
        gauge_after(proof_failure(latest, m.block_number, Some(m)), gauge, before) == gauge_after(
            proof_success(latest, m, proving_time_ms),
            gauge,
            before,
        ),
{
    let at: int = match gauge {
        Gauge::BlockNumber => 0,
        Gauge::ReceivedTimeMs => 1,
        Gauge::TimeToInputMs => 2,
        Gauge::Mgas => 3,
        Gauge::TxCount => 4,
        Gauge::ProvingTimeMs => 5,
        Gauge::ProvingCycles => 6,
        Gauge::SubmitTimeMs => 7,
        Gauge::BlockTimestamp => 8,
    };
    lemma_gauge_set_at(proof_success(latest, m, proving_time_ms), gauge, at, before);
    lemma_gauge_set_at(
        proof_failure(latest, m.block_number, Some(m)),
        gauge,
        at + 1,
        before,
    );
}

/// A failed block of which nothing is known sets the block number gauge to its
/// number and every other gauge to zero.
pub proof fn law_unknown_block_clears_gauges(
    latest: i64,
    block_number: u64,
    gauge: Gauge,
    before: i64,
)
    ensures
        gauge_after(proof_failure(latest, block_number, None), gauge, before) == if gauge
            == Gauge::BlockNumber {
            block_number as i64
        } else {
            0
        },
{
    reveal_with_fuel(gauge_after, 13);
}

/// A failed proof is not observed in any histogram, whether or not the block's
/// figures are known.
pub proof fn law_failure_is_not_observed(
    latest: i64,
    block_number: u64,
    m: Option<BlockMetrics>,
    histogram: Histogram,
)
    ensures
        samples(proof_failure(latest, block_number, m), histogram) == Seq::<i128>::empty(),
{
    reveal_with_fuel(samples, 13);
}

} // verus!
