use ethproofs_client::cliargs::{
    ArgsConflict, CliArgs, CoordinatorArgs, InputGen, TelegramEvent,
};

#[test]
fn defaults() {
    let args = CliArgs::default();
    assert_eq!(args.guest, "./elf/zec-reth.elf");
    assert_eq!(args.coordinator_url, "http://localhost:50051");
    assert_eq!(args.rpc.http_url, "http://localhost:8545");
    assert_eq!(args.rpc.ws_url, "ws://localhost:8546");
    assert_eq!(args.inputs.block_modulus, 1);
    assert!(args.is_complete());
    assert_eq!(args.validate(), Ok(()));
}

#[test]
fn submission_needs_its_values() {
    let mut args = CliArgs::default();
    args.ethproofs.submit = true;
    assert!(!args.is_complete());
    args.ethproofs.api_url = Some("u".to_string());
    args.ethproofs.api_token = Some("t".to_string());
    assert!(!args.is_complete());
    args.ethproofs.cluster_id = Some(1);
    assert!(args.is_complete());
}

#[test]
fn alerts_need_a_bot_and_a_chat() {
    let mut args = CliArgs::default();
    args.telegram.alert = vec![TelegramEvent::Started];
    assert!(!args.is_complete());
    args.telegram.bot_token = Some("b".to_string());
    args.telegram.chat_id = Some("c".to_string());
    assert!(args.is_complete());
}

#[test]
fn database_needs_its_values() {
    let mut args = CliArgs::default();
    args.db.enabled = true;
    args.db.dsn = Some("d".to_string());
    assert!(!args.is_complete());
    args.db.hardware = Some("h".to_string());
    args.db.zisk_version = Some("v".to_string());
    assert!(args.is_complete());
}

#[test]
fn events_are_enabled_one_by_one() {
    let mut args = CliArgs::default();
    assert!(!args.telegram_enabled(TelegramEvent::BlockProved));
    args.telegram.alert = vec![TelegramEvent::Started, TelegramEvent::BlockProved];
    assert!(args.telegram_enabled(TelegramEvent::BlockProved));
    assert!(args.telegram_enabled(TelegramEvent::Started));
    assert!(!args.telegram_enabled(TelegramEvent::ProofFailed));
}

#[test]
fn submission_from_a_folder_is_rejected() {
    let mut args = CliArgs::default();
    args.inputs.mode = InputGen::Folder;
    assert_eq!(args.validate(), Ok(()));
    args.ethproofs.submit = true;
    args.run_time = Some(1);
    let conflict = args.validate().unwrap_err();
    assert_eq!(conflict, ArgsConflict::SubmitFromFolder);
    assert_eq!(
        conflict.message(),
        "'--ethproofs.submit' cannot be used with '--input.mode folder'"
    );
}

#[test]
fn run_time_from_a_folder_is_rejected() {
    let mut args = CliArgs::default();
    args.run_time = Some(1);
    assert_eq!(args.validate(), Ok(()));
    args.inputs.mode = InputGen::Folder;
    let conflict = args.validate().unwrap_err();
    assert_eq!(conflict, ArgsConflict::RunTimeWithoutRpc);
    assert_eq!(conflict.message(), "'--run-time' can only be used with '--input.mode rpc'");
}

#[test]
fn the_coordinator_is_local_by_default() {
    let coordinator = CoordinatorArgs::default();
    assert_eq!(coordinator.url, "http://localhost:50051");
    assert_eq!(coordinator.compute_capacity, 10);
    assert_eq!(CliArgs::default().coordinator_url, coordinator.url);
}
