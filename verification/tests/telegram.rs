use ethproofs_client::cliargs::{CliArgs, TelegramEvent};
use ethproofs_client::state::AppState;
use ethproofs_client::telegram::{
    send_block_proved_alert, send_proof_failed_alert, send_proof_resumed_alert,
    send_skipped_resumed_alert, send_skipped_threshold_alert, send_started_alert,
    send_telegram_alert, AlertType, TelegramError,
};

fn state(events: Vec<TelegramEvent>) -> AppState<u8> {
    let mut args = CliArgs::default();
    args.telegram.alert = events;
    args.telegram.bot_token = Some("token".to_string());
    args.telegram.chat_id = Some("chat".to_string());
    AppState::new(args, 0)
}

#[test]
fn request_to_the_bot() {
    let mut args = state(vec![]).cliargs.telegram;
    let request = send_telegram_alert(&args, "hello", AlertType::Warning).unwrap();
    assert_eq!(request.url, "https://api.telegram.org/bottoken/sendMessage");
    assert_eq!(request.chat_id, "chat");
    assert_eq!(request.text, "⚠️ [EthProofs Client Alert]: hello");
    args.message_prefix = String::new();
    let request = send_telegram_alert(&args, "hello", AlertType::Error).unwrap();
    assert_eq!(request.text, "❌  hello");
}

#[test]
fn alerts_without_a_bot_or_a_chat_fail() {
    let mut args = state(vec![]).cliargs.telegram;
    args.chat_id = None;
    let error = send_telegram_alert(&args, "x", AlertType::Info).unwrap_err();
    assert_eq!(error, TelegramError::ChatIdNotSet);
    assert_eq!(error.message(), "telegram.chat-id not set");
    args.bot_token = None;
    let error = send_telegram_alert(&args, "x", AlertType::Info).unwrap_err();
    assert_eq!(error, TelegramError::BotTokenNotSet);
    assert_eq!(error.message(), "telegram.bot-token not set");
}

#[test]
fn icons() {
    assert_eq!(AlertType::Success.icon(), "✅");
    assert_eq!(AlertType::Error.icon(), "❌");
    assert_eq!(AlertType::Warning.icon(), "⚠️");
    assert_eq!(AlertType::Info.icon(), "ℹ️");
}

#[test]
fn alerts_of_events() {
    let all = state(vec![
        TelegramEvent::Started,
        TelegramEvent::BlockProved,
        TelegramEvent::SkippedThreshold,
        TelegramEvent::ProofFailed,
    ]);
    let alert = send_started_alert(&all, "rpc").unwrap();
    assert_eq!(alert.message, "EthProofs client started (rpc mode)");
    assert_eq!(alert.alert_type, AlertType::Info);
    let alert = send_block_proved_alert(&all, 5, 12_999, 7).unwrap();
    assert_eq!(alert.message, "Proof generated for block 5, proving_time: 12s, cycles: 7");
    assert_eq!(alert.alert_type, AlertType::Success);
    let alert = send_skipped_threshold_alert(&all, 5, 12, 6).unwrap();
    assert_eq!(
        alert.message,
        "Skipped 6 consecutive blocks. Currently proving block 5, next queued block is 12."
    );
    assert_eq!(alert.alert_type, AlertType::Warning);
    let alert = send_skipped_resumed_alert(&all, 5).unwrap();
    assert_eq!(alert.message, "Resumed proving. Now proving block 5.");
    assert_eq!(alert.alert_type, AlertType::Info);
    let alert = send_proof_failed_alert(&all, "bad".to_string()).unwrap();
    assert_eq!(alert.message, "bad");
    assert_eq!(alert.alert_type, AlertType::Error);
    let alert = send_proof_resumed_alert(&all, 6).unwrap();
    assert_eq!(alert.message, "Resumed proving. Now proving block 6.");
}

#[test]
fn no_alerts_for_other_events() {
    let none = state(vec![]);
    assert!(send_started_alert(&none, "rpc").is_none());
    assert!(send_block_proved_alert(&none, 5, 1, 7).is_none());
    assert!(send_skipped_threshold_alert(&none, 5, 12, 6).is_none());
    assert!(send_skipped_resumed_alert(&none, 5).is_none());
    assert!(send_proof_failed_alert(&none, "bad".to_string()).is_none());
    assert!(send_proof_resumed_alert(&none, 6).is_none());
}
