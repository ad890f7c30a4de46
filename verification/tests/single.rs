use ethproofs_client::single::{cluster_id, end_round, stages, submitted_alert, SingleArgs, Stage};
use ethproofs_client::telegram::AlertType;

#[test]
fn stages_with_ethproofs() {
    let args = SingleArgs { no_ethproofs: false, block_submit_alert: true, test_block: None };
    assert_eq!(
        stages(&args),
        vec![
            Stage::FetchBlock,
            Stage::ReportQueued,
            Stage::MakeInput,
            Stage::ReportProving,
            Stage::MakeProof,
            Stage::EncodeProof,
            Stage::SubmitProof,
            Stage::SendAlert,
        ]
    );
}

#[test]
fn stages_without_ethproofs() {
    let args = SingleArgs { no_ethproofs: true, block_submit_alert: false, test_block: None };
    assert_eq!(
        stages(&args),
        vec![Stage::FetchBlock, Stage::MakeInput, Stage::MakeProof, Stage::EncodeProof]
    );
}

#[test]
fn submitted_proofs_are_alerted() {
    let alert = submitted_alert(5, 12, 30_000_000, 77, 9_999);
    assert_eq!(
        alert.message,
        "Proof submitted for block number 5, txs: 12, gas: 30000000, cycles: 77, proving_time: 9"
    );
    assert_eq!(alert.alert_type, AlertType::Success);
}

#[test]
fn rounds_end() {
    let args = SingleArgs { no_ethproofs: true, block_submit_alert: false, test_block: None };
    let end = end_round(&args, 5, &None);
    assert_eq!(end.proof_folder, "proof/5");
    assert_eq!(end.input_file, "input/5.bin");
    assert!(end.alert.is_none());
    assert!(end.again);
    let test = SingleArgs { test_block: Some(5), ..args };
    let end = end_round(&test, 5, &Some("bad".to_string()));
    let alert = end.alert.unwrap();
    assert_eq!(alert.message, "Error processing block 5, error: bad");
    assert_eq!(alert.alert_type, AlertType::Error);
    assert!(!end.again);
}

#[test]
fn clusters_are_numbers_of_32_bits() {
    assert_eq!(cluster_id(&"7".to_string()), Some(7));
    assert_eq!(cluster_id(&"4294967295".to_string()), Some(u32::MAX));
    assert_eq!(cluster_id(&"4294967296".to_string()), None);
    assert_eq!(cluster_id(&"x".to_string()), None);
}
