//! Exercises the transfer state machine: both server roles, both client
//! roles, duplicate acknowledgements, peer errors, and retransmission.
use tftp_libs::codec::Message;
use tftp_libs::machine::{
    build_error_message, client_handle_message, client_start_get, client_start_put,
    handle_request, handle_timeout, server_read_granted, TransferStep,
};
use tftp_libs::registry::SessionRegistry;
use tftp_libs::TftpError;

const PEER: u64 = 42;

fn content_of(n: usize) -> Vec<u8> {
    (0..n).map(|i| (i % 251) as u8).collect()
}

fn expect_data(step: TransferStep) -> (u16, Vec<u8>) {
    match step {
        TransferStep::Reply(Message::Data { block_number, data, length }) => {
            assert_eq!(length, data.len());
            (block_number, data)
        },
        other => panic!("expected a data reply, got {:?}", other),
    }
}

/// Serves a whole download of `content` and returns the payload sizes of
/// the data blocks sent, in order.
fn serve_download(content: Vec<u8>) -> Vec<usize> {
    let mut registry = SessionRegistry::new();
    let mut sizes = Vec::new();
    let total = content.clone();

    let step = handle_request(
        &mut registry,
        PEER,
        Message::ReadRequest { file_name: b"f".to_vec(), mode: b"octet".to_vec() },
    );
    match step {
        TransferStep::NeedFile { file_name, mode } => {
            assert_eq!(file_name, b"f".to_vec());
            assert_eq!(mode, b"octet".to_vec());
        },
        other => panic!("expected the byte store to be asked, got {:?}", other),
    }

    let first = server_read_granted(&mut registry, PEER, b"f".to_vec(), b"octet".to_vec(), content);
    let (mut block, data) = match first {
        Message::Data { block_number, data, length } => {
            assert_eq!(length, data.len());
            (block_number, data)
        },
        other => panic!("expected the first data block, got {:?}", other),
    };
    assert_eq!(block, 1);
    let mut received = data.clone();
    sizes.push(data.len());

    loop {
        let step = handle_request(&mut registry, PEER, Message::Ack { block_number: block });
        match step {
            TransferStep::Reply(Message::Data { block_number, data, length }) => {
                assert_eq!(length, data.len());
                assert_eq!(block_number, block.wrapping_add(1));
                block = block_number;
                received.extend_from_slice(&data);
                sizes.push(data.len());
            },
            TransferStep::Finish { session } => {
                assert!(matches!(session.state, tftp_libs::session::SessionState::Completed));
                assert!(registry.get_session(PEER).is_none());
                break;
            },
            other => panic!("unexpected step {:?}", other),
        }
    }
    assert_eq!(received, total);
    sizes
}

#[test]
fn download_block_sizes_for_1000_bytes() {
    assert_eq!(serve_download(content_of(1000)), vec![512, 488]);
}

#[test]
fn download_block_sizes_for_1024_bytes() {
    assert_eq!(serve_download(content_of(1024)), vec![512, 512, 0]);
}

#[test]
fn download_block_sizes_for_short_and_empty_files() {
    assert_eq!(serve_download(content_of(100)), vec![100]);
    assert_eq!(serve_download(content_of(0)), vec![0]);
    assert_eq!(serve_download(content_of(512)), vec![512, 0]);
}

#[test]
fn download_wraps_block_numbers_past_65535() {
    // 65536 full blocks and a zero-length terminal block: the terminal
    // block is number 65537, which appears on the wire as 1.
    let sizes = serve_download(content_of(65536 * 512));
    assert_eq!(sizes.len(), 65537);
    assert!(sizes[..65536].iter().all(|&s| s == 512));
    assert_eq!(sizes[65536], 0);
}

#[test]
fn unknown_file_reports_error_code_1_and_no_session() {
    let mut registry = SessionRegistry::new();
    let step = handle_request(
        &mut registry,
        PEER,
        Message::ReadRequest { file_name: b"missing".to_vec(), mode: b"octet".to_vec() },
    );
    assert!(matches!(step, TransferStep::NeedFile { .. }));
    // The byte store fails to resolve the file: answer with the error
    // packet; no session was or will be created.
    let reply = build_error_message(true, Vec::new());
    match reply {
        Message::Error { error_code, error_message } => {
            assert_eq!(error_code, 1);
            assert_eq!(error_message, b"File not found".to_vec());
        },
        other => panic!("expected an error packet, got {:?}", other),
    }
    assert!(registry.get_session(PEER).is_none());
}

#[test]
fn other_io_failure_reports_error_code_0() {
    let reply = build_error_message(false, b"permission denied".to_vec());
    match reply {
        Message::Error { error_code, error_message } => {
            assert_eq!(error_code, 0);
            assert_eq!(error_message, b"permission denied".to_vec());
        },
        other => panic!("expected an error packet, got {:?}", other),
    }
}

#[test]
fn duplicate_ack_retransmits_same_block() {
    let mut registry = SessionRegistry::new();
    handle_request(
        &mut registry,
        PEER,
        Message::ReadRequest { file_name: b"f".to_vec(), mode: b"octet".to_vec() },
    );
    server_read_granted(&mut registry, PEER, b"f".to_vec(), b"octet".to_vec(), content_of(1000));

    // Ack of block 1 moves the transfer to block 2.
    let (block, data2) = expect_data(handle_request(&mut registry, PEER, Message::Ack {
        block_number: 1,
    }));
    assert_eq!(block, 2);
    assert_eq!(data2.len(), 488);

    // A duplicate Ack of block 1 retransmits block 2 unchanged.
    let (again, data2_again) = expect_data(handle_request(&mut registry, PEER, Message::Ack {
        block_number: 1,
    }));
    assert_eq!(again, 2);
    assert_eq!(data2_again, data2);
    assert!(registry.get_session(PEER).is_some());

    // The genuine Ack of block 2 then completes the transfer.
    let step = handle_request(&mut registry, PEER, Message::Ack { block_number: 2 });
    assert!(matches!(step, TransferStep::Finish { .. }));
    assert!(registry.get_session(PEER).is_none());
}

#[test]
fn upload_round_trip_concatenates_blocks() {
    let mut registry = SessionRegistry::new();
    let step = handle_request(
        &mut registry,
        PEER,
        Message::WriteRequest { file_name: b"x.bin".to_vec(), mode: b"octet".to_vec() },
    );
    assert_eq!(step, TransferStep::Reply(Message::Ack { block_number: 0 }));

    let b1 = content_of(512);
    let b2 = vec![9; 512];
    let b3 = vec![7; 100];
    let mut expected = b1.clone();
    expected.extend_from_slice(&b2);
    expected.extend_from_slice(&b3);

    let step = handle_request(&mut registry, PEER, Message::Data {
        block_number: 1,
        data: b1,
        length: 512,
    });
    assert_eq!(step, TransferStep::Reply(Message::Ack { block_number: 1 }));
    let step = handle_request(&mut registry, PEER, Message::Data {
        block_number: 2,
        data: b2,
        length: 512,
    });
    assert_eq!(step, TransferStep::Reply(Message::Ack { block_number: 2 }));

    let step = handle_request(&mut registry, PEER, Message::Data {
        block_number: 3,
        data: b3,
        length: 100,
    });
    match step {
        TransferStep::FinishWithReply { reply, session } => {
            assert_eq!(reply, Message::Ack { block_number: 3 });
            assert_eq!(session.content, expected);
            assert_eq!(session.content.len(), 1124);
            assert_eq!(session.file_name, b"x.bin".to_vec());
        },
        other => panic!("expected the upload to finish, got {:?}", other),
    }
    assert!(registry.get_session(PEER).is_none());
}

#[test]
fn peer_error_aborts_session_without_reply() {
    let mut registry = SessionRegistry::new();
    handle_request(
        &mut registry,
        PEER,
        Message::ReadRequest { file_name: b"f".to_vec(), mode: b"octet".to_vec() },
    );
    server_read_granted(&mut registry, PEER, b"f".to_vec(), b"octet".to_vec(), content_of(1000));
    assert!(registry.get_session(PEER).is_some());

    let step = handle_request(&mut registry, PEER, Message::Error {
        error_code: 5,
        error_message: b"disk full".to_vec(),
    });
    match step {
        TransferStep::PeerError { error_code, error_message } => {
            assert_eq!(error_code, 5);
            assert_eq!(error_message, b"disk full".to_vec());
        },
        other => panic!("expected the peer error to surface, got {:?}", other),
    }
    assert!(registry.get_session(PEER).is_none());
}

#[test]
fn stray_packets_from_unknown_peers_are_dropped() {
    let mut registry = SessionRegistry::new();
    let step = handle_request(&mut registry, PEER, Message::Ack { block_number: 1 });
    assert_eq!(step, TransferStep::Ignore);
    let step = handle_request(&mut registry, PEER, Message::Data {
        block_number: 1,
        data: vec![1],
        length: 1,
    });
    assert_eq!(step, TransferStep::Ignore);
    let step = handle_request(&mut registry, PEER, Message::Error {
        error_code: 0,
        error_message: vec![],
    });
    assert_eq!(step, TransferStep::Ignore);
}

#[test]
fn request_during_transfer_aborts_session() {
    let mut registry = SessionRegistry::new();
    handle_request(
        &mut registry,
        PEER,
        Message::WriteRequest { file_name: b"x".to_vec(), mode: b"m".to_vec() },
    );
    assert!(registry.get_session(PEER).is_some());
    let step = handle_request(
        &mut registry,
        PEER,
        Message::ReadRequest { file_name: b"y".to_vec(), mode: b"m".to_vec() },
    );
    assert_eq!(step, TransferStep::Abort { error: TftpError::UnexpectedMessage });
    assert!(registry.get_session(PEER).is_none());
}

#[test]
fn ack_during_upload_aborts_session() {
    let mut registry = SessionRegistry::new();
    handle_request(
        &mut registry,
        PEER,
        Message::WriteRequest { file_name: b"x".to_vec(), mode: b"m".to_vec() },
    );
    let step = handle_request(&mut registry, PEER, Message::Ack { block_number: 0 });
    assert_eq!(step, TransferStep::Abort { error: TftpError::UnexpectedMessage });
    assert!(registry.get_session(PEER).is_none());
}

#[test]
fn client_get_assembles_file() {
    let mut registry = SessionRegistry::new();
    let server: u64 = 1;
    let request = client_start_get(&mut registry, server, b"f".to_vec(), b"octet".to_vec());
    assert_eq!(request, Message::ReadRequest { file_name: b"f".to_vec(), mode: b"octet".to_vec() });

    let b1 = content_of(512);
    let b2 = vec![3; 100];
    let mut expected = b1.clone();
    expected.extend_from_slice(&b2);

    let step = client_handle_message(&mut registry, server, Message::Data {
        block_number: 1,
        data: b1,
        length: 512,
    });
    assert_eq!(step, TransferStep::Reply(Message::Ack { block_number: 1 }));

    let step = client_handle_message(&mut registry, server, Message::Data {
        block_number: 2,
        data: b2,
        length: 100,
    });
    match step {
        TransferStep::FinishWithReply { reply, session } => {
            assert_eq!(reply, Message::Ack { block_number: 2 });
            assert_eq!(session.content, expected);
        },
        other => panic!("expected the download to finish, got {:?}", other),
    }
    assert!(registry.get_session(server).is_none());
}

#[test]
fn client_put_sends_all_blocks() {
    let mut registry = SessionRegistry::new();
    let server: u64 = 1;
    let content = content_of(1000);
    let request =
        client_start_put(&mut registry, server, b"f".to_vec(), b"octet".to_vec(), content.clone());
    assert_eq!(
        request,
        Message::WriteRequest { file_name: b"f".to_vec(), mode: b"octet".to_vec() }
    );

    // The server acknowledges the request with block 0.
    let (block, data) =
        expect_data(client_handle_message(&mut registry, server, Message::Ack { block_number: 0 }));
    assert_eq!(block, 1);
    assert_eq!(data, content[..512].to_vec());

    let (block, data) =
        expect_data(client_handle_message(&mut registry, server, Message::Ack { block_number: 1 }));
    assert_eq!(block, 2);
    assert_eq!(data, content[512..].to_vec());

    let step = client_handle_message(&mut registry, server, Message::Ack { block_number: 2 });
    match step {
        TransferStep::Finish { session } => {
            assert!(matches!(session.state, tftp_libs::session::SessionState::Completed));
        },
        other => panic!("expected the upload to finish, got {:?}", other),
    }
    assert!(registry.get_session(server).is_none());
}

#[test]
fn client_put_duplicate_ack_retransmits() {
    let mut registry = SessionRegistry::new();
    let server: u64 = 1;
    let content = content_of(1000);
    client_start_put(&mut registry, server, b"f".to_vec(), b"octet".to_vec(), content.clone());
    expect_data(client_handle_message(&mut registry, server, Message::Ack { block_number: 0 }));
    // A duplicate Ack of block 0 retransmits block 1 unchanged.
    let (block, data) =
        expect_data(client_handle_message(&mut registry, server, Message::Ack { block_number: 0 }));
    assert_eq!(block, 1);
    assert_eq!(data, content[..512].to_vec());
}

#[test]
fn client_drops_requests_without_session_and_aborts_with_one() {
    let mut registry = SessionRegistry::new();
    let server: u64 = 1;
    let step = client_handle_message(&mut registry, server, Message::ReadRequest {
        file_name: b"f".to_vec(),
        mode: b"m".to_vec(),
    });
    assert_eq!(step, TransferStep::Ignore);

    client_start_get(&mut registry, server, b"f".to_vec(), b"m".to_vec());
    let step = client_handle_message(&mut registry, server, Message::WriteRequest {
        file_name: b"f".to_vec(),
        mode: b"m".to_vec(),
    });
    assert_eq!(step, TransferStep::Abort { error: TftpError::UnexpectedMessage });
    assert!(registry.get_session(server).is_none());
}

#[test]
fn client_error_packet_aborts_transfer() {
    let mut registry = SessionRegistry::new();
    let server: u64 = 1;
    client_start_get(&mut registry, server, b"f".to_vec(), b"m".to_vec());
    let step = client_handle_message(&mut registry, server, Message::Error {
        error_code: 2,
        error_message: b"denied".to_vec(),
    });
    assert_eq!(step, TransferStep::PeerError { error_code: 2, error_message: b"denied".to_vec() });
    assert!(registry.get_session(server).is_none());
}

#[test]
fn timeout_retransmits_then_aborts() {
    let mut registry = SessionRegistry::new();
    handle_request(
        &mut registry,
        PEER,
        Message::ReadRequest { file_name: b"f".to_vec(), mode: b"octet".to_vec() },
    );
    let first =
        server_read_granted(&mut registry, PEER, b"f".to_vec(), b"octet".to_vec(), content_of(700));
    let first_data = match first {
        Message::Data { data, .. } => data,
        other => panic!("expected the first data block, got {:?}", other),
    };

    // Each expiry of the retransmission timer resends block 1, until the
    // retry budget runs out and the session aborts.
    let mut expiries = 0;
    loop {
        match handle_timeout(&mut registry, PEER) {
            TransferStep::Reply(Message::Data { block_number, data, .. }) => {
                assert_eq!(block_number, 1);
                assert_eq!(data, first_data);
                expiries += 1;
                assert!(expiries <= 16, "the retry budget never ran out");
            },
            TransferStep::Abort { error } => {
                assert_eq!(error, TftpError::RetriesExhausted);
                break;
            },
            other => panic!("unexpected step {:?}", other),
        }
    }
    assert!(expiries > 0);
    assert!(registry.get_session(PEER).is_none());
    // A timeout for a peer with no session is dropped.
    assert_eq!(handle_timeout(&mut registry, PEER), TransferStep::Ignore);
}

#[test]
fn timeout_resends_request_before_first_reply() {
    let mut registry = SessionRegistry::new();
    let server: u64 = 1;
    client_start_put(&mut registry, server, b"f".to_vec(), b"m".to_vec(), content_of(10));
    match handle_timeout(&mut registry, server) {
        TransferStep::Reply(Message::WriteRequest { file_name, mode }) => {
            assert_eq!(file_name, b"f".to_vec());
            assert_eq!(mode, b"m".to_vec());
        },
        other => panic!("expected the write request again, got {:?}", other),
    }

    let client: u64 = 2;
    client_start_get(&mut registry, client, b"g".to_vec(), b"m".to_vec());
    match handle_timeout(&mut registry, client) {
        TransferStep::Reply(Message::ReadRequest { file_name, mode }) => {
            assert_eq!(file_name, b"g".to_vec());
            assert_eq!(mode, b"m".to_vec());
        },
        other => panic!("expected the read request again, got {:?}", other),
    }
}

#[test]
fn upload_timeout_resends_last_ack() {
    let mut registry = SessionRegistry::new();
    handle_request(
        &mut registry,
        PEER,
        Message::WriteRequest { file_name: b"x".to_vec(), mode: b"m".to_vec() },
    );
    assert_eq!(
        handle_timeout(&mut registry, PEER),
        TransferStep::Reply(Message::Ack { block_number: 0 })
    );
    handle_request(&mut registry, PEER, Message::Data {
        block_number: 1,
        data: vec![1; 512],
        length: 512,
    });
    assert_eq!(
        handle_timeout(&mut registry, PEER),
        TransferStep::Reply(Message::Ack { block_number: 1 })
    );
}
