use ethproofs_client::protocol::{
    input_payload, queued_payload, short_hash, BlockCommand, BlockInfo, BlockMessage,
};

fn info(block_number: u64, hash: &str) -> BlockInfo {
    BlockInfo { block_number, timestamp: 0, block_hash: hash.to_string(), tx_count: 0, mgas: 0 }
}

#[test]
fn short_hash_takes_six() {
    assert_eq!(short_hash("abcdefgh"), "abcdef");
    assert_eq!(short_hash("abc"), "abc");
    assert_eq!(short_hash(""), "");
    assert_eq!(info(1, "0123456789").short_hash(), "012345");
}

#[test]
fn filename_holds_number_and_short_hash() {
    assert_eq!(info(123, "abcdef0123").filename(), "123_abcdef.bin");
    assert_eq!(info(0, "").filename(), "0_.bin");
}

#[test]
fn filenames_tell_blocks_apart() {
    assert_ne!(info(12, "3").filename(), info(123, "").filename());
    assert_ne!(info(1, "abcdef").filename(), info(1, "abcdee").filename());
    assert_eq!(info(1, "abcdefg").filename(), info(1, "abcdefh").filename());
}

#[test]
fn queued_message_is_empty_but_for_the_number() {
    let message = BlockMessage::new_queued(7);
    assert!(matches!(message.command, BlockCommand::Queued));
    assert_eq!(message.info.block_number, 7);
    assert_eq!(message.info.timestamp, 0);
    assert_eq!(message.info.block_hash, "");
    assert_eq!(message.info.tx_count, 0);
    assert_eq!(message.info.mgas, 0);
}

#[test]
fn input_message_holds_everything() {
    let message = BlockMessage::new_input(7, 8, "hash".to_string(), 9, 10);
    assert!(matches!(message.command, BlockCommand::Input));
    assert_eq!(message.info.block_number, 7);
    assert_eq!(message.info.timestamp, 8);
    assert_eq!(message.info.block_hash, "hash");
    assert_eq!(message.info.tx_count, 9);
    assert_eq!(message.info.mgas, 10);
}

#[test]
fn payloads_are_command_newline_content() {
    assert_eq!(queued_payload("{}"), b"{}\n".to_vec());
    assert_eq!(input_payload("{\"a\":1}", &[1, 10, 2]), b"{\"a\":1}\n\x01\n\x02".to_vec());
    assert_eq!(input_payload("", &[]), b"\n".to_vec());
}

#[test]
fn first_newline_ends_the_command() {
    let payload = input_payload("größe", &[10, 255, 10]);
    let at = payload.iter().position(|b| *b == b'\n').unwrap();
    assert_eq!(&payload[..at], "größe".as_bytes());
    assert_eq!(&payload[at + 1..], &[10, 255, 10]);
}
