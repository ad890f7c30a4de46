use ethproofs_client::metrics::{
    compute_missing_diff, init_counters, metrics_address, publish_block_gauges,
    publish_empty_block_gauges, publish_proof_failure_no_metrics,
    publish_proof_failure_with_metrics, publish_proof_success, BlockMetrics, Counter, Gauge,
    Histogram, MetricOp,
};

fn metrics(block_number: u64) -> BlockMetrics {
    BlockMetrics {
        block_number,
        received_time_ms: 11,
        time_to_input_ms: 2_000,
        mgas: 30,
        tx_count: 40,
        timestamp: 50,
        proving_time_ms: Some(10_000),
        proving_cycles: Some(70),
        submit_time_ms: None,
        success: true,
    }
}

fn added(ops: &[MetricOp], wanted: Counter) -> u64 {
    let mut sum = 0;
    for op in ops {
        if let MetricOp::AddTo { counter, by } = op {
            if *counter == wanted {
                sum += *by;
            }
        }
    }
    sum
}

fn gauge(ops: &[MetricOp], wanted: Gauge) -> Option<i64> {
    let mut last = None;
    for op in ops {
        if let MetricOp::SetGauge { gauge, value } = op {
            if *gauge == wanted {
                last = Some(*value);
            }
        }
    }
    last
}

fn observed(ops: &[MetricOp], wanted: Histogram) -> Vec<i128> {
    let mut samples = vec![];
    for op in ops {
        if let MetricOp::Observe { histogram, sample } = op {
            if *histogram == wanted {
                samples.push(*sample);
            }
        }
    }
    samples
}

#[test]
fn missing_blocks_lie_between() {
    assert_eq!(compute_missing_diff(0, 100), 0);
    assert_eq!(compute_missing_diff(100, 101), 0);
    assert_eq!(compute_missing_diff(100, 105), 4);
    assert_eq!(compute_missing_diff(100, 100), 0);
    assert_eq!(compute_missing_diff(100, 99), 0);
}

#[test]
fn counters_start_at_zero() {
    let ops = init_counters();
    assert_eq!(ops.len(), 4);
    for counter in [
        Counter::TimeToProofUnder12s,
        Counter::TimeToProofOver12s,
        Counter::ProvingUnder12s,
        Counter::ProvingOver12s,
    ] {
        assert_eq!(added(&ops, counter), 0);
    }
}

#[test]
fn gauges_take_the_figures_of_a_block() {
    let ops = publish_block_gauges(5, &metrics(9));
    assert_eq!(ops.len(), 11);
    assert_eq!(gauge(&ops, Gauge::BlockNumber), Some(9));
    assert_eq!(gauge(&ops, Gauge::ReceivedTimeMs), Some(11));
    assert_eq!(gauge(&ops, Gauge::TimeToInputMs), Some(2_000));
    assert_eq!(gauge(&ops, Gauge::Mgas), Some(30));
    assert_eq!(gauge(&ops, Gauge::TxCount), Some(40));
    assert_eq!(gauge(&ops, Gauge::BlockTimestamp), Some(50));
    assert_eq!(gauge(&ops, Gauge::ProvingTimeMs), Some(10_000));
    assert_eq!(gauge(&ops, Gauge::ProvingCycles), Some(70));
    assert_eq!(gauge(&ops, Gauge::SubmitTimeMs), Some(0));
    assert_eq!(added(&ops, Counter::BlocksMissing), 3);
    assert_eq!(added(&ops, Counter::BlocksReceived), 1);
}

#[test]
fn gauges_without_figures_are_zero() {
    let ops = publish_empty_block_gauges(5, 9);
    assert_eq!(gauge(&ops, Gauge::BlockNumber), Some(9));
    for name in [
        Gauge::BlockTimestamp,
        Gauge::SubmitTimeMs,
        Gauge::Mgas,
        Gauge::TxCount,
        Gauge::ProvingTimeMs,
        Gauge::ProvingCycles,
        Gauge::TimeToInputMs,
        Gauge::ReceivedTimeMs,
    ] {
        assert_eq!(gauge(&ops, name), Some(0));
    }
    assert_eq!(added(&ops, Counter::BlocksMissing), 3);
    assert_eq!(added(&ops, Counter::BlocksReceived), 1);
}

#[test]
fn success_within_twelve_seconds() {
    let ops = publish_proof_success(0, &metrics(9), 10_000);
    assert_eq!(added(&ops, Counter::ProofSuccess), 1);
    assert_eq!(added(&ops, Counter::ProofFailure), 0);
    assert_eq!(added(&ops, Counter::TimeToProofUnder12s), 1);
    assert_eq!(added(&ops, Counter::TimeToProofOver12s), 0);
    assert_eq!(added(&ops, Counter::ProvingUnder12s), 1);
    assert_eq!(added(&ops, Counter::ProvingOver12s), 0);
    assert_eq!(observed(&ops, Histogram::TimeToInput), vec![2_000]);
    assert_eq!(observed(&ops, Histogram::TimeToProof), vec![12_000]);
    assert_eq!(observed(&ops, Histogram::ProvingTime), vec![10_000]);
}

#[test]
fn success_over_twelve_seconds() {
    let ops = publish_proof_success(0, &metrics(9), 12_000);
    assert_eq!(added(&ops, Counter::TimeToProofOver12s), 1);
    assert_eq!(added(&ops, Counter::ProvingUnder12s), 1);
    let ops = publish_proof_success(0, &metrics(9), 12_001);
    assert_eq!(added(&ops, Counter::ProvingOver12s), 1);
    assert_eq!(added(&ops, Counter::ProvingUnder12s), 0);
}

#[test]
fn failures_are_counted_once() {
    let ops = publish_proof_failure_with_metrics(7, &metrics(9));
    assert_eq!(added(&ops, Counter::ProofFailure), 1);
    assert_eq!(added(&ops, Counter::ProofSuccess), 0);
    assert_eq!(added(&ops, Counter::BlocksMissing), 1);
    assert_eq!(gauge(&ops, Gauge::Mgas), Some(30));
    for counter in [
        Counter::TimeToProofUnder12s,
        Counter::TimeToProofOver12s,
        Counter::ProvingUnder12s,
        Counter::ProvingOver12s,
    ] {
        assert_eq!(added(&ops, counter), 0);
        assert_eq!(added(&publish_proof_failure_no_metrics(7, 9), counter), 0);
    }
    let ops = publish_proof_failure_no_metrics(7, 9);
    assert_eq!(added(&ops, Counter::ProofFailure), 1);
    assert_eq!(added(&ops, Counter::BlocksReceived), 1);
    assert_eq!(gauge(&ops, Gauge::Mgas), Some(0));
}

#[test]
fn every_block_of_a_run_is_counted() {
    let mut latest = 0;
    let mut seen = 0;
    for block in [100u64, 101, 105, 106, 120] {
        let ops = publish_proof_success(latest, &metrics(block), 1);
        seen += added(&ops, Counter::BlocksMissing) + added(&ops, Counter::BlocksReceived);
        latest = gauge(&ops, Gauge::BlockNumber).unwrap();
    }
    assert_eq!(seen, 21);
    assert_eq!(latest, 120);
}

#[test]
fn metrics_listen_everywhere() {
    assert_eq!(metrics_address(8384), "0.0.0.0:8384");
}
