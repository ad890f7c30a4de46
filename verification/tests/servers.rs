use ethproofs_client::ig_server::{
    generate_input_file, input_command, input_file_generator, input_job, queued_command,
    CommandStep, GeneratorStep, Session,
};
use ethproofs_client::input::BlockHeader;
use ethproofs_client::input_server::{
    block_listener, block_modulus, generate_input_file as server_input, handle_client,
    inputs_folder, listen_address, ClientStep, ListenerStep,
};
use ethproofs_client::inputgen::{
    generate_input, generate_input_file as input_file, input_file_source, input_source, InputError,
};
use ethproofs_client::protocol::{BlockCommand, BlockMessage};

fn header(number: Option<u64>) -> BlockHeader {
    BlockHeader {
        number,
        hash: None,
        timestamp: 1_000,
        tx_count: 12,
        gas_used: 30_000_000,
    }
}

#[test]
fn server_settings() {
    assert_eq!(block_modulus(&None), Some(100));
    assert_eq!(block_modulus(&Some("7".to_string())), Some(7));
    assert_eq!(block_modulus(&Some("seven".to_string())), None);
    assert_eq!(inputs_folder(&None), "inputs");
    assert_eq!(inputs_folder(&Some("x".to_string())), "x");
    assert_eq!(listen_address(&None), "0.0.0.0:8765");
    assert_eq!(listen_address(&Some("99".to_string())), "0.0.0.0:99");
}

#[test]
fn the_server_announces_multiples() {
    assert!(matches!(block_listener(None, 100), ListenerStep::Stop));
    assert!(matches!(block_listener(Some(&header(None)), 100), ListenerStep::SkipUnnumbered));
    assert!(matches!(
        block_listener(Some(&header(Some(150))), 100),
        ListenerStep::SkipBlock { block_number: 150 }
    ));
    match block_listener(Some(&header(Some(200))), 100) {
        ListenerStep::Announce { queued, input } => {
            assert!(matches!(queued.command, BlockCommand::Queued));
            assert_eq!(queued.info.block_number, 200);
            assert_eq!(queued.info.timestamp, 0);
            assert!(matches!(input.command, BlockCommand::Input));
            assert_eq!(input.info.block_number, 200);
            assert_eq!(input.info.timestamp, 1_000);
            assert_eq!(input.info.block_hash, "nohash");
            assert_eq!(input.info.tx_count, 12);
            assert_eq!(input.info.mgas, 30);
        }
        other => panic!("{:?}", other),
    }
}

#[test]
fn clients_get_what_messages_say() {
    assert!(matches!(handle_client(&None), ClientStep::Invalid));
    assert!(matches!(
        handle_client(&Some(BlockMessage::new_queued(5))),
        ClientStep::SendQueued
    ));
    let message = BlockMessage::new_input(5, 0, "abcdefgh".to_string(), 0, 0);
    match handle_client(&Some(message)) {
        ClientStep::SendInput { filename } => assert_eq!(filename, "5_abcdef.bin"),
        other => panic!("{:?}", other),
    }
}

#[test]
fn the_last_block_seen_is_taken_at_the_end() {
    assert_eq!(
        input_file_generator(Some(&header(None)), 7, 100),
        GeneratorStep::Listen { last_seen: 7 }
    );
    assert_eq!(
        input_file_generator(Some(&header(Some(150))), 7, 100),
        GeneratorStep::Listen { last_seen: 150 }
    );
    assert_eq!(
        input_file_generator(Some(&header(Some(200))), 7, 100),
        GeneratorStep::Generate { block_number: 200 }
    );
    assert_eq!(
        input_file_generator(None, 150, 100),
        GeneratorStep::Generate { block_number: 150 }
    );
}

#[test]
fn inputs_start_from_the_parent() {
    let url = Some("HTTP://Node.Example:8545".to_string());
    let job = generate_input_file(200, &url).unwrap();
    assert_eq!(job.rpc_url, "http://node.example:8545/");
    assert_eq!(job.parent, 199);
    assert_eq!(job.filename, "200.bin");
    assert_eq!(generate_input_file(200, &None).unwrap_err(), InputError::UrlNotSet);
    let bad = Some("not a url".to_string());
    assert_eq!(generate_input_file(200, &bad).unwrap_err(), InputError::UrlInvalid);
    let job = input_job(1, Some("u".to_string())).unwrap();
    assert_eq!((job.rpc_url.as_str(), job.parent, job.filename.as_str()), ("u", 0, "1.bin"));
    assert_eq!(input_job(1, None).unwrap_err(), InputError::UrlInvalid);
}

#[test]
fn inputs_in_memory_come_from_a_url() {
    let info = BlockMessage::new_queued(6).info;
    let url = Some("http://NODE/x y".to_string());
    let source = generate_input(&info, &url).unwrap();
    assert_eq!(source.block_number, 6);
    assert_eq!(source.rpc_url, "http://node/x%20y");
    assert_eq!(generate_input(&info, &None).unwrap_err(), InputError::UrlNotSet);
    let bad = Some("".to_string());
    assert_eq!(generate_input(&info, &bad).unwrap_err(), InputError::UrlInvalid);
    assert_eq!(input_source(&info, Some("u".to_string())).unwrap().rpc_url, "u");
    assert_eq!(input_source(&info, None).unwrap_err(), InputError::UrlInvalid);
}

#[test]
fn commands_are_understood() {
    let session = Session::new();
    assert_eq!(queued_command(5), "queued 5");
    assert_eq!(input_command(5), "input 5.bin");
    match session.handle_client(&queued_command(5)) {
        CommandStep::SendQueued { payload } => assert_eq!(payload, "queued 5"),
        other => panic!("{:?}", other),
    }
    match session.handle_client(&input_command(5)) {
        CommandStep::SendInput { file } => assert_eq!(file, "5.bin"),
        other => panic!("{:?}", other),
    }
    match session.handle_client(&" queued   x ".to_string()) {
        CommandStep::SendQueued { payload } => assert_eq!(payload, "queued x"),
        other => panic!("{:?}", other),
    }
    for unknown in ["", "queued", "queued 1 2", "send 1", "Queued 1"] {
        assert!(matches!(
            session.handle_client(&unknown.to_string()),
            CommandStep::Unknown
        ));
    }
}

#[test]
fn inputs_are_sent_once() {
    let mut session = Session::new();
    session.note_sent(input_command(5));
    session.note_sent(input_command(5));
    session.note_sent(input_command(6));
    assert!(matches!(session.handle_client(&input_command(5)), CommandStep::AlreadySent));
    assert!(matches!(session.handle_client(&input_command(6)), CommandStep::AlreadySent));
    assert!(matches!(session.handle_client(&input_command(7)), CommandStep::SendInput { .. }));
    assert!(matches!(session.handle_client(&queued_command(5)), CommandStep::SendQueued { .. }));
}

#[test]
fn the_server_hands_its_url_on_as_it_stands() {
    let info = BlockMessage::new_input(5, 0, "abcdefgh".to_string(), 0, 0).info;
    let url = Some("HTTP://Node.Example:8545".to_string());
    let request = server_input(&info, &url, &Some("in".to_string())).unwrap();
    assert_eq!(request.rpc_url, "HTTP://Node.Example:8545");
    assert_eq!(request.block_number, 5);
    assert_eq!(request.folder, "in");
    assert_eq!(request.filename, "5_abcdef.bin");
    let odd = Some("not a url".to_string());
    let request = server_input(&info, &odd, &None).unwrap();
    assert_eq!(request.rpc_url, "not a url");
    assert_eq!(request.folder, "inputs");
    assert!(server_input(&info, &None, &None).is_none());
}

#[test]
fn input_files_come_from_a_url() {
    let info = BlockMessage::new_input(5, 0, "abcdefgh".to_string(), 0, 0).info;
    let url = Some("HTTP://Node.Example:8545".to_string());
    let source = input_file(&info, "in".to_string(), &url).unwrap();
    assert_eq!(source.rpc_url, "http://node.example:8545/");
    assert_eq!(source.block_number, 5);
    assert_eq!(source.folder, "in");
    assert_eq!(source.filename, "5_abcdef.bin");
    let missing = input_file(&info, "in".to_string(), &None);
    assert_eq!(missing.unwrap_err(), InputError::UrlNotSet);
    let bad = input_file(&info, "in".to_string(), &Some("not a url".to_string()));
    assert_eq!(bad.unwrap_err(), InputError::UrlInvalid);
    let source = input_file_source(&info, "f".to_string(), Some("u".to_string())).unwrap();
    assert_eq!((source.rpc_url.as_str(), source.folder.as_str()), ("u", "f"));
    let none = input_file_source(&info, "f".to_string(), None);
    assert_eq!(none.unwrap_err(), InputError::UrlInvalid);
}
