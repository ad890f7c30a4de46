//! The server that makes block inputs and sends them to its clients: which
//! blocks it takes, what it announces, and what a client is sent.

use vstd::prelude::*;
use vstd::string::*;

use crate::input::BlockHeader;
use crate::protocol::{BlockCommand, BlockInfo, BlockMessage};
#[allow(unused_imports)]
use crate::protocol::BlockInfoView;
#[allow(unused_imports)]
use crate::text::parse_u64;
use crate::text::{parse_u64_chars, to_chars};

verus! {

/// The modulus of the blocks that are taken, from a setting: 100 if it is not
/// set, none if it is not a number.
pub fn block_modulus(setting: &Option<String>) -> (r: Option<u64>)
    ensures
        r == match *setting {
            Some(value) => parse_u64(value@),
            None => Some(100u64),
        },
{
    match setting {
        Some(value) => {
            let chars = to_chars(value.as_str());
            assert(chars@.subrange(0, chars@.len() as int) =~= value@);
            parse_u64_chars(&chars, 0, chars.len())
        },
        None => Some(100),
    }
}

/// The folder of input files, from a setting.
pub fn inputs_folder(setting: &Option<String>) -> (r: String)
    ensures
        r@ == match *setting {
            Some(value) => value@,
            None => "inputs"@,
        },
{
    match setting {
        Some(value) => value.clone(),
        None => "inputs".to_owned(),
    }
}

/// The address that the server listens on, with the port from a setting.
pub fn listen_address(port: &Option<String>) -> (r: String)
    ensures
        r@ == "0.0.0.0"@ + ":"@ + match *port {
            Some(value) => value@,
            None => "8765"@,
        },
{
    let mut address = "0.0.0.0".to_owned();
    address.append(":");
    match port {
        Some(value) => address.append(value.as_str()),
        None => address.append("8765"),
    }
    address
}

/// What the input of a block is made from, and where it is written.
#[derive(Debug)]
pub struct InputRequest {
    pub block_number: u64,
    pub rpc_url: String,
    pub folder: String,
    pub filename: String,
}

/// The request of a block's input, with the URL of the node, as it stands, and
/// the folder of input files from settings; none if the URL is not set.
pub fn generate_input_file(
    block_info: &BlockInfo,
    rpc_url: &Option<String>,
    folder: &Option<String>,
) -> (r: Option<InputRequest>)
    ensures
        match r {
            Some(request) => {
                &&& rpc_url is Some
                &&& request.rpc_url@ == rpc_url->0@
                &&& request.block_number == block_info.block_number
                &&& request.folder@ == match *folder {
                    Some(value) => value@,
                    None => "inputs"@,
                }
                &&& request.filename@ == block_info@.filename()
            },
            None => rpc_url is None,
        },
{
    match rpc_url {
        Some(url) => Some(
            InputRequest {
                block_number: block_info.block_number,
                rpc_url: url.clone(),
                folder: inputs_folder(folder),
                filename: block_info.filename(),
            },
        ),
        None => None,
    }
}

/// What the server does when its subscription to new blocks gives something.
#[derive(Debug)]
pub enum ListenerStep {
    /// The subscription ended before a block was taken: stop.
    Stop,
    /// The header has no number: go on listening.
    SkipUnnumbered,
    /// The number is not a multiple of the modulus: go on listening.
    SkipBlock { block_number: u64 },
    /// Announce the block. If a client is there, make its input and announce
    /// that too.
    Announce { queued: BlockMessage, input: BlockMessage },
}

/// Decides what the server does when its subscription to new blocks gives a
/// header, or ends.
pub fn block_listener(header: Option<&BlockHeader>, modulus: u64) -> (r: ListenerStep)
    requires
        modulus > 0,
    ensures
        match r {
            ListenerStep::Stop => header is None,
            ListenerStep::SkipUnnumbered => header is Some && header->0.number is None,
            ListenerStep::SkipBlock { block_number } => header is Some && header->0.number == Some(
                block_number,
            ) && block_number % modulus != 0,
            ListenerStep::Announce { queued, input } => {
                &&& header is Some
                &&& header->0.number == Some(input.info.block_number)
                &&& input.info.block_number % modulus == 0
                &&& input.command == BlockCommand::Input
                &&& input.info@ == header->0.info_of(input.info.block_number)
                &&& queued.command == BlockCommand::Queued
                &&& queued.info@ == (BlockInfoView {
                    block_number: input.info.block_number,
                    timestamp: 0,
                    block_hash: Seq::empty(),
                    tx_count: 0,
                    mgas: 0,
                })
            },
        },
{
    let block = match header {
        Some(block) => block,
        None => return ListenerStep::Stop,
    };
    let block_number: u64 = match block.number {
        Some(number) => number,
        None => return ListenerStep::SkipUnnumbered,
    };
    if block_number % modulus != 0 {
        return ListenerStep::SkipBlock { block_number };
    }
    ListenerStep::Announce {
        queued: BlockMessage::new_queued(block_number),
        input: BlockMessage::new_input(
            block_number,
            block.timestamp,
            block.hash_text(),
            block.tx_count,
            block.gas_used / 1_000_000,
        ),
    }
}

/// What a client is sent for a message.
#[derive(Debug)]
pub enum ClientStep {
    /// The message alone.
    SendQueued,
    /// The message, followed by the contents of an input file.
    SendInput { filename: String },
    /// Nothing: the message was not understood.
    Invalid,
}

/// Decides what a client is sent for a message, if it was understood.
pub fn handle_client(message: &Option<BlockMessage>) -> (r: ClientStep)
    ensures
        match r {
            ClientStep::SendQueued => message is Some && message->0.command
                == BlockCommand::Queued,
            ClientStep::SendInput { filename } => message is Some && message->0.command
                == BlockCommand::Input && filename@ == message->0.info@.filename(),
            ClientStep::Invalid => message is None,
        },
{
    match message {
        Some(message) => match message.command {
            BlockCommand::Queued => ClientStep::SendQueued,
            BlockCommand::Input => ClientStep::SendInput { filename: message.info.filename() },
        },
        None => ClientStep::Invalid,
    }
}

} // verus!
