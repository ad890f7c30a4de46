//! Telegram alerts: which are sent, what they say, and the request that sends
//! them.

use vstd::prelude::*;
use vstd::string::*;

#[allow(unused_imports)]
use crate::cliargs::CliArgs;
use crate::cliargs::{TelegramArgs, TelegramEvent};
use crate::state::AppState;
#[allow(unused_imports)]
use crate::text::decimal;
use crate::text::push_decimal;

verus! {

/// The kind of an alert.
#[derive(Clone, Copy, Debug, PartialEq, Eq, Structural)]
pub enum AlertType {
    Success,
    Error,
    Info,
    Warning,
}

impl AlertType {
    /// The icon in front of an alert.
    pub open spec fn icon_text(self) -> Seq<char> {
        match self {
            AlertType::Success => "✅"@,
            AlertType::Error => "❌"@,
            AlertType::Warning => "⚠️"@,
            AlertType::Info => "ℹ️"@,
        }
    }

    /// The icon in front of an alert.
    pub fn icon(&self) -> (r: &'static str)
        ensures
            r@ == self.icon_text(),
            *self == AlertType::Success ==> r@ == "✅"@,
            *self == AlertType::Error ==> r@ == "❌"@,
            *self == AlertType::Warning ==> r@ == "⚠️"@,
            *self == AlertType::Info ==> r@ == "ℹ️"@,
    {
        match self {
            AlertType::Success => "✅",
            AlertType::Error => "❌",
            AlertType::Warning => "⚠️",
            AlertType::Info => "ℹ️",
        }
    }
}

/// An alert to send.
#[derive(Debug)]
pub struct Alert {
    pub message: String,
    pub alert_type: AlertType,
}

/// The contents of an [`Alert`].
pub struct AlertView {
    pub message: Seq<char>,
    pub alert_type: AlertType,
}

impl View for Alert {
    type V = AlertView;

    open spec fn view(&self) -> AlertView {
        AlertView { message: self.message@, alert_type: self.alert_type }
    }
}

/// The contents of an alert, if there is one.
pub open spec fn alert_view(alert: Option<Alert>) -> Option<AlertView> {
    match alert {
        Some(a) => Some(a@),
        None => None,
    }
}

/// A request to the Telegram bot API.
#[derive(Debug)]
pub struct TelegramRequest {
    pub url: String,
    pub chat_id: String,
    pub text: String,
}

/// Why an alert cannot be sent.
#[derive(Clone, Copy, Debug, PartialEq, Eq, Structural)]
pub enum TelegramError {
    BotTokenNotSet,
    ChatIdNotSet,
}

impl TelegramError {
    /// What the log says of the error.
    pub open spec fn text(self) -> Seq<char> {
        match self {
            TelegramError::BotTokenNotSet => "telegram.bot-token not set"@,
            TelegramError::ChatIdNotSet => "telegram.chat-id not set"@,
        }
    }

    /// What the log says of the error.
    pub fn message(&self) -> (r: String)
        ensures
            r@ == self.text(),
            *self == TelegramError::BotTokenNotSet ==> r@ == "telegram.bot-token not set"@,
            *self == TelegramError::ChatIdNotSet ==> r@ == "telegram.chat-id not set"@,
    {
        match self {
            TelegramError::BotTokenNotSet => "telegram.bot-token not set".to_owned(),
            TelegramError::ChatIdNotSet => "telegram.chat-id not set".to_owned(),
        }
    }
}

/// The prefix of a message, with a colon unless it is empty.
pub open spec fn message_start(message_prefix: Seq<char>) -> Seq<char> {
    if message_prefix.len() == 0 {
        message_prefix
    } else {
        message_prefix + ":"@
    }
}

/// The text of an alert: icon, prefix and message.
pub open spec fn alert_text(
    alert_type: AlertType,
    message_prefix: Seq<char>,
    message: Seq<char>,
) -> Seq<char> {
    alert_type.icon_text() + " "@ + message_start(message_prefix) + " "@ + message
}

/// The address of the bot API that sends messages.
pub open spec fn send_url(bot_token: Seq<char>) -> Seq<char> {
    "https://api.telegram.org/bot"@ + bot_token + "/sendMessage"@
}

/// The request that sends an alert to the chat.
pub fn send_telegram_alert(args: &TelegramArgs, message: &str, alert_type: AlertType) -> (r: Result<
    TelegramRequest,
    TelegramError,
>)
    ensures
        match r {
            Ok(request) => {
                &&& args.bot_token is Some
                &&& args.chat_id is Some
                &&& request.url@ == send_url(args.bot_token->0@)
                &&& request.chat_id@ == args.chat_id->0@
                &&& request.text@ == alert_text(alert_type, args.message_prefix@, message@)
            },
            Err(TelegramError::BotTokenNotSet) => args.bot_token is None,
            Err(TelegramError::ChatIdNotSet) => args.bot_token is Some && args.chat_id is None,
        },
{
    let bot_token = match &args.bot_token {
        Some(token) => token,
        None => return Err(TelegramError::BotTokenNotSet),
    };
    let chat_id = match &args.chat_id {
        Some(id) => id,
        None => return Err(TelegramError::ChatIdNotSet),
    };

    let mut text = alert_type.icon().to_owned();
    text.append(" ");
    if !args.message_prefix.as_str().is_empty() {
        text.append(args.message_prefix.as_str());
        text.append(":");
    }
    text.append(" ");
    text.append(message);
    assert(text@ =~= alert_text(alert_type, args.message_prefix@, message@));

    let mut url = "https://api.telegram.org/bot".to_owned();
    url.append(bot_token.as_str());
    url.append("/sendMessage");

    Ok(TelegramRequest { url, chat_id: chat_id.clone(), text })
}

/// The alert for an event, if alerts are sent for it.
pub open spec fn alert_for(
    cliargs: CliArgs,
    event: TelegramEvent,
    message: Seq<char>,
    alert_type: AlertType,
) -> Option<AlertView> {
    if cliargs.alerts(event) {
        Some(AlertView { message, alert_type })
    } else {
        None
    }
}

/// What the alert of a started client says.
pub open spec fn started_message(mode: Seq<char>) -> Seq<char> {
    "EthProofs client started ("@ + mode + " mode)"@
}

/// What the alert of a proved block says: its time in whole seconds.
pub open spec fn block_proved_message(
    block_number: u64,
    proving_time_ms: u64,
    proving_cycles: u64,
) -> Seq<char> {
    "Proof generated for block "@ + decimal(block_number as nat) + ", proving_time: "@ + decimal(
        (proving_time_ms / 1000) as nat,
    ) + "s, cycles: "@ + decimal(proving_cycles as nat)
}

/// What the alert of skipped blocks says.
pub open spec fn skipped_message(
    proving_block_number: u64,
    block_number: u64,
    skipped_count: u64,
) -> Seq<char> {
    "Skipped "@ + decimal(skipped_count as nat) + " consecutive blocks. Currently proving block "@
        + decimal(proving_block_number as nat) + ", next queued block is "@ + decimal(
        block_number as nat,
    ) + "."@
}

/// What an alert says when proving goes on after an earlier alert.
pub open spec fn resumed_message(block_number: u64) -> Seq<char> {
    "Resumed proving. Now proving block "@ + decimal(block_number as nat) + "."@
}

fn resumed_text(block_number: u64) -> (r: String)
    ensures
        r@ == resumed_message(block_number),
{
    let mut message = "Resumed proving. Now proving block ".to_owned();
    push_decimal(&mut message, block_number);
    message.append(".");
    message
}

/// The alert of a started client, if alerts are sent for it.
pub fn send_started_alert<S>(app_state: &AppState<S>, mode: &str) -> (r: Option<Alert>)
    ensures
        alert_view(r) == alert_for(
            app_state.cliargs,
            TelegramEvent::Started,
            started_message(mode@),
            AlertType::Info,
        ),
{
    if !app_state.cliargs.telegram_enabled(TelegramEvent::Started) {
        return None;
    }
    let mut message = "EthProofs client started (".to_owned();
    message.append(mode);
    message.append(" mode)");
    Some(Alert { message, alert_type: AlertType::Info })
}

/// The alert of a proved block, if alerts are sent for it.
pub fn send_block_proved_alert<S>(
    app_state: &AppState<S>,
    block_number: u64,
    proving_time_ms: u64,
    proving_cycles: u64,
) -> (r: Option<Alert>)
    ensures
        alert_view(r) == alert_for(
            app_state.cliargs,
            TelegramEvent::BlockProved,
            block_proved_message(block_number, proving_time_ms, proving_cycles),
            AlertType::Success,
        ),
{
    if !app_state.cliargs.telegram_enabled(TelegramEvent::BlockProved) {
        return None;
    }
    let mut message = "Proof generated for block ".to_owned();
    push_decimal(&mut message, block_number);
    message.append(", proving_time: ");
    push_decimal(&mut message, proving_time_ms / 1000);
    message.append("s, cycles: ");
    push_decimal(&mut message, proving_cycles);
    Some(Alert { message, alert_type: AlertType::Success })
}

/// The alert of skipped blocks, if alerts are sent for it.
pub fn send_skipped_threshold_alert<S>(
    app_state: &AppState<S>,
    proving_block_number: u64,
    block_number: u64,
    skipped_count: u64,
) -> (r: Option<Alert>)
    ensures
        alert_view(r) == alert_for(
            app_state.cliargs,
            TelegramEvent::SkippedThreshold,
            skipped_message(proving_block_number, block_number, skipped_count),
            AlertType::Warning,
        ),
{
    if !app_state.cliargs.telegram_enabled(TelegramEvent::SkippedThreshold) {
        return None;
    }
    let mut message = "Skipped ".to_owned();
    push_decimal(&mut message, skipped_count);
    message.append(" consecutive blocks. Currently proving block ");
    push_decimal(&mut message, proving_block_number);
    message.append(", next queued block is ");
    push_decimal(&mut message, block_number);
    message.append(".");
    Some(Alert { message, alert_type: AlertType::Warning })
}

/// The alert that blocks are no longer skipped, if alerts are sent for it.
pub fn send_skipped_resumed_alert<S>(app_state: &AppState<S>, proving_block_number: u64) -> (r:
    Option<Alert>)
    ensures
        alert_view(r) == alert_for(
            app_state.cliargs,
            TelegramEvent::SkippedThreshold,
            resumed_message(proving_block_number),
            AlertType::Info,
        ),
{
    if !app_state.cliargs.telegram_enabled(TelegramEvent::SkippedThreshold) {
        return None;
    }
    Some(Alert { message: resumed_text(proving_block_number), alert_type: AlertType::Info })
}

/// The alert of a failed proof, if alerts are sent for it.
pub fn send_proof_failed_alert<S>(app_state: &AppState<S>, msg: String) -> (r: Option<Alert>)
    ensures
        alert_view(r) == alert_for(
            app_state.cliargs,
            TelegramEvent::ProofFailed,
            msg@,
            AlertType::Error,
        ),
{
    if !app_state.cliargs.telegram_enabled(TelegramEvent::ProofFailed) {
        return None;
    }
    Some(Alert { message: msg, alert_type: AlertType::Error })
}

/// The alert that proofs no longer fail, if alerts are sent for it.
pub fn send_proof_resumed_alert<S>(app_state: &AppState<S>, block_number: u64) -> (r: Option<Alert>)
    ensures
        alert_view(r) == alert_for(
            app_state.cliargs,
            TelegramEvent::ProofFailed,
            resumed_message(block_number),
            AlertType::Info,
        ),
{
    if !app_state.cliargs.telegram_enabled(TelegramEvent::ProofFailed) {
        return None;
    }
    Some(Alert { message: resumed_text(block_number), alert_type: AlertType::Info })
}

/// The contents of an alert are those of its fields.
pub proof fn law_alert_contents(alert: Option<Alert>)
    ensures
        alert is Some <==> alert_view(alert) is Some,
        alert matches Some(a) ==> alert_view(alert)->0.message == a.message@ && alert_view(
            alert,
        )->0.alert_type == a.alert_type,
{
}

/// There is an alert for an event exactly if the event is among those that alerts
/// were asked for, and it says what it is given.
pub proof fn law_alert_for_event(
    cliargs: CliArgs,
    event: TelegramEvent,
    message: Seq<char>,
    alert_type: AlertType,
)
    ensures
        alert_for(cliargs, event, message, alert_type) is Some
            <==> cliargs.telegram.alert@.contains(event),
        alert_for(cliargs, event, message, alert_type) matches Some(alert) ==> alert.message
            == message && alert.alert_type == alert_type,
{
}

/// What each alert says: the numbers and times that it is about, the time of a
/// proof in whole seconds.
pub proof fn law_what_alerts_say(n: u64, m: u64, count: u64, mode: Seq<char>)
    ensures
        started_message(mode) == "EthProofs client started ("@ + mode + " mode)"@,
        block_proved_message(n, m, count) == "Proof generated for block "@ + decimal(n as nat)
            + ", proving_time: "@ + decimal((m / 1000) as nat) + "s, cycles: "@ + decimal(
            count as nat,
        ),
        skipped_message(n, m, count) == "Skipped "@ + decimal(count as nat)
            + " consecutive blocks. Currently proving block "@ + decimal(n as nat)
            + ", next queued block is "@ + decimal(m as nat) + "."@,
        resumed_message(n) == "Resumed proving. Now proving block "@ + decimal(n as nat) + "."@,
{
}

/// The text of an alert: the icon of its kind, then the prefix with a colon
/// unless it is empty, then the message, with spaces between them; and the address
/// that it is sent to, which names the bot.
pub proof fn law_alert_text_is_made_of(
    kind: AlertType,
    message_prefix: Seq<char>,
    message: Seq<char>,
    token: Seq<char>,
)
    ensures
        alert_text(kind, message_prefix, message) == match kind {
            AlertType::Success => "✅"@,
            AlertType::Error => "❌"@,
            AlertType::Warning => "⚠️"@,
            AlertType::Info => "ℹ️"@,
        } + " "@ + (if message_prefix.len() == 0 {
            Seq::empty()
        } else {
            message_prefix + ":"@
        }) + " "@ + message,
        send_url(token) == "https://api.telegram.org/bot"@ + token + "/sendMessage"@,
{
    if message_prefix.len() == 0 {
        assert(message_prefix =~= Seq::<char>::empty());
    }
}

} // verus!
