//! The transfer state machine: given an incoming packet and the session
//! tracked for its sender (or the absence of one), it decides the next
//! session state and at most one outgoing packet, for the serving and the
//! requesting role alike.
use vstd::prelude::*;

use crate::TftpError;
use crate::codec::Message;
use crate::registry::SessionRegistry;
use crate::session::{
    block_data, block_end, expected_final_block, expected_final_block_of, lemma_block_layout,
    read_block, Direction, SessionState, TftpSessionInfo, DEFAULT_RETRIES,
};

verus! {

/// What one state-machine step asks the caller to do next.
#[derive(Debug, PartialEq, Eq)]
pub enum TransferStep {
    /// Send this packet to the peer; the transfer goes on.
    Reply(Message),
    /// A read request was admitted: resolve `file_name` in the byte store,
    /// then settle it with `server_read_granted` on success or answer with
    /// `build_error_message` on failure.
    NeedFile { file_name: Vec<u8>, mode: Vec<u8> },
    /// Send the final packet; the transfer is complete and its session,
    /// returned here, has left the registry.
    FinishWithReply { reply: Message, session: TftpSessionInfo },
    /// The transfer is complete with nothing further to send; its session,
    /// returned here, has left the registry.
    Finish { session: TftpSessionInfo },
    /// The peer reported an error: the session was dropped, no further
    /// packet is sent, and the code and message surface to the operator.
    PeerError { error_code: u16, error_message: Vec<u8> },
    /// A packet invalid for the session's state arrived: the session was
    /// dropped and nothing is sent.
    Abort { error: TftpError },
    /// A stray packet from a peer with no transfer in progress: dropped.
    Ignore,
}

/// What an acknowledgement does to a sending session.
#[derive(Debug, PartialEq, Eq)]
pub enum TransferProgress {
    /// The terminal block has been acknowledged; the transfer is complete.
    Completed,
    /// Send this packet: the next block, or the last block once more.
    Send(Message),
    /// A stale acknowledgement before anything was sent: drop it.
    Stale,
}

/// The 16-bit wire form of block number `k`; block numbers wrap modulo
/// 65536 on the wire.
pub open spec fn wire_of(k: u64) -> u16 {
    (k % 0x10000) as u16
}

/// The fields no state-machine step ever touches.
pub open spec fn same_identity(s0: TftpSessionInfo, s1: TftpSessionInfo) -> bool {
    &&& s1.file_name == s0.file_name
    &&& s1.mode == s0.mode
    &&& s1.direction == s0.direction
}

/// `m` is the data packet carrying block `k` of `content`.
pub open spec fn is_data_block(m: Message, content: Seq<u8>, k: u64) -> bool {
    &&& m matches Message::Data { block_number, data, length } && block_number == wire_of(k)
        && data@ == block_data(content, k as nat) && length == data@.len()
}

/// `s1` is `s0` moved forward by one sent block: the cursor stands at the
/// end of the new block and the retry budget is re-armed for it.
pub open spec fn advanced_session(s0: TftpSessionInfo, s1: TftpSessionInfo) -> bool {
    &&& same_identity(s0, s1)
    &&& s1.content == s0.content
    &&& s1.block_count == s0.block_count
    &&& s1.last_block_number == s0.last_block_number + 1
    &&& s1.state is Transferring
    &&& s1.byte_cursor == block_end(s0.content@.len(), s1.last_block_number as nat)
    &&& s1.retries_remaining == DEFAULT_RETRIES
}

/// `s1` is `s0` after taking in one data block: the payload was appended,
/// the block acknowledged, and the retry budget re-armed.
pub open spec fn received_block(
    s0: TftpSessionInfo,
    s1: TftpSessionInfo,
    block_number: u16,
    payload: Seq<u8>,
) -> bool {
    &&& same_identity(s0, s1)
    &&& s1.content@ == s0.content@ + payload
    &&& s1.last_block_number == block_number as u64
    &&& s1.block_count == s0.block_count
    &&& s1.byte_cursor == s0.byte_cursor
    &&& s1.retries_remaining == DEFAULT_RETRIES
}

/// Spec bytes of the fixed "File not found" report.
pub open spec fn file_not_found_text() -> Seq<u8> {
    seq![
        70u8,
        105u8,
        108u8,
        101u8,
        32u8,
        110u8,
        111u8,
        116u8,
        32u8,
        102u8,
        111u8,
        117u8,
        110u8,
        100u8,
    ]
}

/// Builds the error packet reported back to a requesting peer: code 1 with
/// the fixed text for a missing file, code 0 with the caller's detail for
/// any other failure.
pub fn build_error_message(not_found: bool, detail: Vec<u8>) -> (m: Message)
    ensures
        m matches Message::Error { error_code, error_message } && error_code == (
        if not_found {
            1u16
        } else {
            0u16
        }) && error_message@ == (if not_found {
            file_not_found_text()
        } else {
            detail@
        }),
{
    if not_found {
        let mut text: Vec<u8> = Vec::new();
        text.push(70);
        text.push(105);
        text.push(108);
        text.push(101);
        text.push(32);
        text.push(110);
        text.push(111);
        text.push(116);
        text.push(32);
        text.push(102);
        text.push(111);
        text.push(117);
        text.push(110);
        text.push(100);
        proof {
            assert(text@ =~= file_not_found_text());
        }
        Message::Error { error_code: 1, error_message: text }
    } else {
        Message::Error { error_code: 0, error_message: detail }
    }
}

/// Consumes one acknowledgement for a sending session (server download or
/// client put): an Ack of the last block sent moves the transfer forward —
/// to the next block, or to completion where the last block was the
/// terminal one — and any other Ack retransmits the last block unchanged.
pub fn advance_transfer(session: &mut TftpSessionInfo, block_number: u16) -> (r: TransferProgress)
    requires
        old(session).wf(),
        old(session).is_sender(),
    ensures
        final(session).wf(),
        final(session).is_sender(),
        same_identity(*old(session), *final(session)),
        final(session).content == old(session).content,
        final(session).block_count == old(session).block_count,
        ({
            let s0 = *old(session);
            let s1 = *final(session);
            if block_number == s0.wire_block() && s0.last_block_number == s0.block_count {
                &&& r is Completed
                &&& s1.state is Completed
                &&& s1.last_block_number == s0.last_block_number
                &&& s1.byte_cursor == s0.byte_cursor
                &&& s1.retries_remaining == s0.retries_remaining
            } else if block_number == s0.wire_block() {
                &&& advanced_session(s0, s1)
                &&& (r matches TransferProgress::Send(m) && is_data_block(
                    m,
                    s0.content@,
                    (s0.last_block_number + 1) as u64,
                ))
            } else if s0.last_block_number >= 1 {
                &&& s1 == s0
                &&& (r matches TransferProgress::Send(m) && is_data_block(
                    m,
                    s0.content@,
                    s0.last_block_number,
                ))
            } else {
                &&& s1 == s0
                &&& r is Stale
            }
        }),
{
    let wire = (session.last_block_number % 0x10000) as u16;
    if block_number == wire {
        if session.last_block_number == session.block_count {
            session.state = SessionState::Completed;
            TransferProgress::Completed
        } else {
            let next = session.last_block_number + 1;
            let total = session.content.len();
            proof {
                let len = session.content@.len();
                assert(len == total);
                lemma_block_layout(len, next as nat);
                assert(len == 512 * (len / 512) + len % 512);
                assert(session.last_block_number * 512 <= len);
                assert(session.byte_cursor + (block_end(len, next as nat) - (
                session.last_block_number * 512)) == block_end(len, next as nat));
            }
            let chunk = read_block(&session.content, next);
            let length = chunk.len();
            session.last_block_number = next;
            session.byte_cursor = session.byte_cursor + length;
            session.state = SessionState::Transferring;
            session.retries_remaining = DEFAULT_RETRIES;
            TransferProgress::Send(
                Message::Data { block_number: (next % 0x10000) as u16, data: chunk, length },
            )
        }
    } else if session.last_block_number >= 1 {
        let chunk = read_block(&session.content, session.last_block_number);
        let length = chunk.len();
        TransferProgress::Send(Message::Data { block_number: wire, data: chunk, length })
    } else {
        TransferProgress::Stale
    }
}

/// A session just created to receive an upload: nothing stored yet, the
/// acknowledgement of block 0 about to go out.
pub open spec fn fresh_upload_session(
    s: TftpSessionInfo,
    file_name: Seq<u8>,
    mode: Seq<u8>,
) -> bool {
    &&& s.file_name@ == file_name
    &&& s.mode@ == mode
    &&& s.direction is Upload
    &&& s.state is Transferring
    &&& s.content@ == Seq::<u8>::empty()
    &&& s.byte_cursor == 0
    &&& s.last_block_number == 0
    &&& s.block_count == 0
    &&& s.retries_remaining == DEFAULT_RETRIES
}

/// A session just created to serve a download: the whole file resolved,
/// its terminal block computed from the file length, block 1 just sent.
pub open spec fn fresh_download_session(
    s: TftpSessionInfo,
    file_name: Seq<u8>,
    mode: Seq<u8>,
    content: Seq<u8>,
) -> bool {
    &&& s.file_name@ == file_name
    &&& s.mode@ == mode
    &&& s.direction is Download
    &&& s.state is Transferring
    &&& s.content@ == content
    &&& s.last_block_number == 1
    &&& s.block_count == expected_final_block_of(content.len())
    &&& s.byte_cursor == block_end(content.len(), 1)
    &&& s.retries_remaining == DEFAULT_RETRIES
}

/// The registry gained or replaced the entry at `address` and is unchanged
/// elsewhere.
pub open spec fn registry_updated_at(
    reg0: Map<u64, TftpSessionInfo>,
    reg1: Map<u64, TftpSessionInfo>,
    address: u64,
) -> bool {
    &&& reg1.dom() == reg0.dom().insert(address)
    &&& reg1.remove(address) == reg0.remove(address)
}

/// One server step: consumes a decoded packet from `source_address` and
/// the session tracked for it, and decides the next session state and at
/// most one outgoing packet.
///
/// A read or write request is admitted only where no transfer is in
/// progress; a write request opens an upload session and acknowledges
/// block 0; a data block is appended and acknowledged, completing the
/// upload when it is short; an Ack moves a download forward, retransmits,
/// or completes it; an error packet aborts the session; packets from
/// unknown peers are dropped.
pub fn handle_request(
    registry: &mut SessionRegistry,
    source_address: u64,
    message: Message,
) -> (r: TransferStep)
    ensures
        ({
            let reg0 = old(registry)@;
            let reg1 = final(registry)@;
            let had = reg0.dom().contains(source_address);
            match message {
                Message::ReadRequest { file_name, mode } => {
                    if had {
                        &&& reg1 == reg0.remove(source_address)
                        &&& r == (TransferStep::Abort { error: TftpError::UnexpectedMessage })
                    } else {
                        &&& reg1 == reg0
                        &&& r == (TransferStep::NeedFile { file_name, mode })
                    }
                },
                Message::WriteRequest { file_name, mode } => {
                    if had {
                        &&& reg1 == reg0.remove(source_address)
                        &&& r == (TransferStep::Abort { error: TftpError::UnexpectedMessage })
                    } else {
                        &&& registry_updated_at(reg0, reg1, source_address)
                        &&& fresh_upload_session(reg1[source_address], file_name@, mode@)
                        &&& r == TransferStep::Reply(Message::Ack { block_number: 0 })
                    }
                },
                Message::Data { block_number, data, length: _ } => {
                    if !had {
                        &&& reg1 == reg0
                        &&& r is Ignore
                    } else {
                        let s0 = reg0[source_address];
                        if s0.direction is Upload && s0.state is Transferring {
                            if data@.len() < 512 {
                                &&& reg1 == reg0.remove(source_address)
                                &&& (r matches TransferStep::FinishWithReply { reply, session }
                                    && reply == (Message::Ack { block_number })
                                    && received_block(s0, session, block_number, data@)
                                    && session.state is Completed)
                            } else {
                                &&& registry_updated_at(reg0, reg1, source_address)
                                &&& received_block(s0, reg1[source_address], block_number, data@)
                                &&& reg1[source_address].state is Transferring
                                &&& r == TransferStep::Reply(Message::Ack { block_number })
                            }
                        } else {
                            &&& reg1 == reg0.remove(source_address)
                            &&& r == (TransferStep::Abort { error: TftpError::UnexpectedMessage })
                        }
                    }
                },
                Message::Ack { block_number } => {
                    if !had {
                        &&& reg1 == reg0
                        &&& r is Ignore
                    } else {
                        let s0 = reg0[source_address];
                        if s0.direction is Download && s0.state is Transferring {
                            if block_number == s0.wire_block() && s0.last_block_number
                                == s0.block_count {
                                &&& reg1 == reg0.remove(source_address)
                                &&& (r matches TransferStep::Finish { session } && same_identity(
                                    s0,
                                    session,
                                ) && session.content == s0.content && session.state is Completed)
                            } else if block_number == s0.wire_block() {
                                &&& registry_updated_at(reg0, reg1, source_address)
                                &&& advanced_session(s0, reg1[source_address])
                                &&& (r matches TransferStep::Reply(m) && is_data_block(
                                    m,
                                    s0.content@,
                                    (s0.last_block_number + 1) as u64,
                                ))
                            } else {
                                &&& reg1 == reg0
                                &&& (r matches TransferStep::Reply(m) && is_data_block(
                                    m,
                                    s0.content@,
                                    s0.last_block_number,
                                ))
                            }
                        } else {
                            &&& reg1 == reg0.remove(source_address)
                            &&& r == (TransferStep::Abort { error: TftpError::UnexpectedMessage })
                        }
                    }
                },
                Message::Error { error_code, error_message } => {
                    if had {
                        &&& reg1 == reg0.remove(source_address)
                        &&& r == (TransferStep::PeerError { error_code, error_message })
                    } else {
                        &&& reg1 == reg0
                        &&& r is Ignore
                    }
                },
            }
        }),
{
    match message {
        Message::ReadRequest { file_name, mode } => {
            if registry.get_session(source_address).is_some() {
                registry.deregister(source_address);
                TransferStep::Abort { error: TftpError::UnexpectedMessage }
            } else {
                TransferStep::NeedFile { file_name, mode }
            }
        },
        Message::WriteRequest { file_name, mode } => {
            if registry.get_session(source_address).is_some() {
                registry.deregister(source_address);
                TransferStep::Abort { error: TftpError::UnexpectedMessage }
            } else {
                let session = TftpSessionInfo {
                    file_name,
                    mode,
                    direction: Direction::Upload,
                    state: SessionState::Transferring,
                    content: Vec::new(),
                    byte_cursor: 0,
                    last_block_number: 0,
                    block_count: 0,
                    retries_remaining: DEFAULT_RETRIES,
                };
                registry.register(source_address, session);
                proof {
                    assert(registry@.dom() =~= old(registry)@.dom().insert(source_address));
                    assert(registry@.remove(source_address) =~= old(registry)@.remove(
                        source_address,
                    ));
                }
                TransferStep::Reply(Message::Ack { block_number: 0 })
            }
        },
        Message::Data { block_number, data, length: _ } => {
            match registry.take_session(source_address) {
                None => TransferStep::Ignore,
                Some(mut session) => {
                    if matches!(session.direction, Direction::Upload) && matches!(
                        session.state,
                        SessionState::Transferring,
                    ) {
                        let ghost content0 = session.content@;
                        session.content.extend_from_slice(data.as_slice());
                        proof {
                            assert(session.content@ =~= content0 + data@);
                        }
                        session.last_block_number = block_number as u64;
                        session.retries_remaining = DEFAULT_RETRIES;
                        if data.len() < 512 {
                            session.state = SessionState::Completed;
                            TransferStep::FinishWithReply {
                                reply: Message::Ack { block_number },
                                session,
                            }
                        } else {
                            registry.register(source_address, session);
                            proof {
                                assert(registry@.dom() =~= old(registry)@.dom().insert(
                                    source_address,
                                ));
                                assert(registry@.remove(source_address) =~= old(
                                    registry,
                                )@.remove(source_address));
                            }
                            TransferStep::Reply(Message::Ack { block_number })
                        }
                    } else {
                        TransferStep::Abort { error: TftpError::UnexpectedMessage }
                    }
                },
            }
        },
        Message::Ack { block_number } => {
            match registry.take_session(source_address) {
                None => TransferStep::Ignore,
                Some(mut session) => {
                    if matches!(session.direction, Direction::Download) && matches!(
                        session.state,
                        SessionState::Transferring,
                    ) {
                        match advance_transfer(&mut session, block_number) {
                            TransferProgress::Completed => TransferStep::Finish { session },
                            TransferProgress::Send(m) => {
                                registry.register(source_address, session);
                                proof {
                                    assert(registry@.dom() =~= old(registry)@.dom().insert(
                                        source_address,
                                    ));
                                    assert(registry@.remove(source_address) =~= old(
                                        registry,
                                    )@.remove(source_address));
                                    if block_number != old(registry)@[source_address].wire_block() {
                                        assert(registry@ =~= old(registry)@);
                                    }
                                }
                                TransferStep::Reply(m)
                            },
                            TransferProgress::Stale => {
                                proof {
                                    assert(false);
                                }
                                TransferStep::Ignore
                            },
                        }
                    } else {
                        TransferStep::Abort { error: TftpError::UnexpectedMessage }
                    }
                },
            }
        },
        Message::Error { error_code, error_message } => {
            if registry.get_session(source_address).is_some() {
                registry.deregister(source_address);
                TransferStep::PeerError { error_code, error_message }
            } else {
                TransferStep::Ignore
            }
        },
    }
}

/// Settles an admitted read request whose file resolved in the byte store:
/// creates the download session for `source_address` (unless the peer
/// started another transfer meanwhile) and returns the first data block,
/// which carries the first 512 bytes of `content`, or all of it where the
/// file is shorter.
pub fn server_read_granted(
    registry: &mut SessionRegistry,
    source_address: u64,
    file_name: Vec<u8>,
    mode: Vec<u8>,
    content: Vec<u8>,
) -> (m: Message)
    ensures
        is_data_block(m, content@, 1),
        if old(registry)@.dom().contains(source_address) {
            final(registry)@ == old(registry)@
        } else {
            &&& registry_updated_at(old(registry)@, final(registry)@, source_address)
            &&& fresh_download_session(
                final(registry)@[source_address],
                file_name@,
                mode@,
                content@,
            )
        },
{
    let block_count = expected_final_block(content.len());
    let chunk = read_block(&content, 1);
    let length = chunk.len();
    proof {
        lemma_block_layout(content@.len(), 1);
    }
    let session = TftpSessionInfo {
        file_name,
        mode,
        direction: Direction::Download,
        state: SessionState::Transferring,
        content,
        byte_cursor: length,
        last_block_number: 1,
        block_count,
        retries_remaining: DEFAULT_RETRIES,
    };
    registry.register(source_address, session);
    proof {
        if !old(registry)@.dom().contains(source_address) {
            assert(registry@.dom() =~= old(registry)@.dom().insert(source_address));
            assert(registry@.remove(source_address) =~= old(registry)@.remove(source_address));
        }
    }
    Message::Data { block_number: 1, data: chunk, length }
}

/// A session just created to request a download: nothing received yet, the
/// read request about to go out.
pub open spec fn fresh_get_session(s: TftpSessionInfo, file_name: Seq<u8>, mode: Seq<u8>) -> bool {
    &&& s.file_name@ == file_name
    &&& s.mode@ == mode
    &&& s.direction is Get
    &&& s.state is Requesting
    &&& s.content@ == Seq::<u8>::empty()
    &&& s.byte_cursor == 0
    &&& s.last_block_number == 0
    &&& s.block_count == 0
    &&& s.retries_remaining == DEFAULT_RETRIES
}

/// A session just created to request an upload: the whole local file held,
/// its terminal block computed from the file length, the write request
/// about to go out.
pub open spec fn fresh_put_session(
    s: TftpSessionInfo,
    file_name: Seq<u8>,
    mode: Seq<u8>,
    content: Seq<u8>,
) -> bool {
    &&& s.file_name@ == file_name
    &&& s.mode@ == mode
    &&& s.direction is Put
    &&& s.state is Requesting
    &&& s.content@ == content
    &&& s.byte_cursor == 0
    &&& s.last_block_number == 0
    &&& s.block_count == expected_final_block_of(content.len())
    &&& s.retries_remaining == DEFAULT_RETRIES
}

/// An owned copy of a byte string.
fn copy_bytes(v: &Vec<u8>) -> (r: Vec<u8>)
    ensures
        r@ == v@,
{
    vstd::slice::slice_to_vec(v.as_slice())
}

/// Starts a download on the requesting side: tracks a fresh session for
/// the server (unless one is already in progress) and returns the read
/// request to send.
pub fn client_start_get(
    registry: &mut SessionRegistry,
    server_address: u64,
    file_name: Vec<u8>,
    mode: Vec<u8>,
) -> (m: Message)
    ensures
        m == (Message::ReadRequest { file_name, mode }),
        if old(registry)@.dom().contains(server_address) {
            final(registry)@ == old(registry)@
        } else {
            &&& registry_updated_at(old(registry)@, final(registry)@, server_address)
            &&& fresh_get_session(final(registry)@[server_address], file_name@, mode@)
        },
{
    let session = TftpSessionInfo {
        file_name: copy_bytes(&file_name),
        mode: copy_bytes(&mode),
        direction: Direction::Get,
        state: SessionState::Requesting,
        content: Vec::new(),
        byte_cursor: 0,
        last_block_number: 0,
        block_count: 0,
        retries_remaining: DEFAULT_RETRIES,
    };
    registry.register(server_address, session);
    proof {
        if !old(registry)@.dom().contains(server_address) {
            assert(registry@.dom() =~= old(registry)@.dom().insert(server_address));
            assert(registry@.remove(server_address) =~= old(registry)@.remove(server_address));
        }
    }
    Message::ReadRequest { file_name, mode }
}

/// Starts an upload on the requesting side: tracks a fresh session holding
/// the local file (unless one is already in progress) and returns the
/// write request to send.
pub fn client_start_put(
    registry: &mut SessionRegistry,
    server_address: u64,
    file_name: Vec<u8>,
    mode: Vec<u8>,
    content: Vec<u8>,
) -> (m: Message)
    ensures
        m == (Message::WriteRequest { file_name, mode }),
        if old(registry)@.dom().contains(server_address) {
            final(registry)@ == old(registry)@
        } else {
            &&& registry_updated_at(old(registry)@, final(registry)@, server_address)
            &&& fresh_put_session(final(registry)@[server_address], file_name@, mode@, content@)
        },
{
    let block_count = expected_final_block(content.len());
    let session = TftpSessionInfo {
        file_name: copy_bytes(&file_name),
        mode: copy_bytes(&mode),
        direction: Direction::Put,
        state: SessionState::Requesting,
        content,
        byte_cursor: 0,
        last_block_number: 0,
        block_count,
        retries_remaining: DEFAULT_RETRIES,
    };
    registry.register(server_address, session);
    proof {
        if !old(registry)@.dom().contains(server_address) {
            assert(registry@.dom() =~= old(registry)@.dom().insert(server_address));
            assert(registry@.remove(server_address) =~= old(registry)@.remove(server_address));
        }
    }
    Message::WriteRequest { file_name, mode }
}

/// One requesting-side step: consumes a packet arriving from the server
/// and the session tracked for it. A data block is appended and
/// acknowledged, completing the download when it is short; an Ack moves an
/// upload forward, retransmits, or completes it; an error packet aborts
/// the session; requests arriving at a client are invalid; packets with no
/// session behind them are dropped.
pub fn client_handle_message(
    registry: &mut SessionRegistry,
    server_address: u64,
    message: Message,
) -> (r: TransferStep)
    ensures
        ({
            let reg0 = old(registry)@;
            let reg1 = final(registry)@;
            let had = reg0.dom().contains(server_address);
            match message {
                Message::ReadRequest { .. } | Message::WriteRequest { .. } => {
                    if had {
                        &&& reg1 == reg0.remove(server_address)
                        &&& r == (TransferStep::Abort { error: TftpError::UnexpectedMessage })
                    } else {
                        &&& reg1 == reg0
                        &&& r is Ignore
                    }
                },
                Message::Data { block_number, data, length: _ } => {
                    if !had {
                        &&& reg1 == reg0
                        &&& r is Ignore
                    } else {
                        let s0 = reg0[server_address];
                        if s0.direction is Get && (s0.state is Requesting
                            || s0.state is Transferring) {
                            if data@.len() < 512 {
                                &&& reg1 == reg0.remove(server_address)
                                &&& (r matches TransferStep::FinishWithReply { reply, session }
                                    && reply == (Message::Ack { block_number })
                                    && received_block(s0, session, block_number, data@)
                                    && session.state is Completed)
                            } else {
                                &&& registry_updated_at(reg0, reg1, server_address)
                                &&& received_block(s0, reg1[server_address], block_number, data@)
                                &&& reg1[server_address].state is Transferring
                                &&& r == TransferStep::Reply(Message::Ack { block_number })
                            }
                        } else {
                            &&& reg1 == reg0.remove(server_address)
                            &&& r == (TransferStep::Abort { error: TftpError::UnexpectedMessage })
                        }
                    }
                },
                Message::Ack { block_number } => {
                    if !had {
                        &&& reg1 == reg0
                        &&& r is Ignore
                    } else {
                        let s0 = reg0[server_address];
                        if s0.direction is Put && (s0.state is Requesting
                            || s0.state is Transferring) {
                            if block_number == s0.wire_block() && s0.last_block_number
                                == s0.block_count {
                                &&& reg1 == reg0.remove(server_address)
                                &&& (r matches TransferStep::Finish { session } && same_identity(
                                    s0,
                                    session,
                                ) && session.content == s0.content && session.state is Completed)
                            } else if block_number == s0.wire_block() {
                                &&& registry_updated_at(reg0, reg1, server_address)
                                &&& advanced_session(s0, reg1[server_address])
                                &&& (r matches TransferStep::Reply(m) && is_data_block(
                                    m,
                                    s0.content@,
                                    (s0.last_block_number + 1) as u64,
                                ))
                            } else if s0.last_block_number >= 1 {
                                &&& reg1 == reg0
                                &&& (r matches TransferStep::Reply(m) && is_data_block(
                                    m,
                                    s0.content@,
                                    s0.last_block_number,
                                ))
                            } else {
                                &&& reg1 == reg0
                                &&& r is Ignore
                            }
                        } else {
                            &&& reg1 == reg0.remove(server_address)
                            &&& r == (TransferStep::Abort { error: TftpError::UnexpectedMessage })
                        }
                    }
                },
                Message::Error { error_code, error_message } => {
                    if had {
                        &&& reg1 == reg0.remove(server_address)
                        &&& r == (TransferStep::PeerError { error_code, error_message })
                    } else {
                        &&& reg1 == reg0
                        &&& r is Ignore
                    }
                },
            }
        }),
{
    match message {
        Message::ReadRequest { .. } | Message::WriteRequest { .. } => {
            if registry.get_session(server_address).is_some() {
                registry.deregister(server_address);
                TransferStep::Abort { error: TftpError::UnexpectedMessage }
            } else {
                TransferStep::Ignore
            }
        },
        Message::Data { block_number, data, length: _ } => {
            match registry.take_session(server_address) {
                None => TransferStep::Ignore,
                Some(mut session) => {
                    if matches!(session.direction, Direction::Get) && (matches!(
                        session.state,
                        SessionState::Requesting,
                    ) || matches!(session.state, SessionState::Transferring)) {
                        let ghost content0 = session.content@;
                        session.content.extend_from_slice(data.as_slice());
                        proof {
                            assert(session.content@ =~= content0 + data@);
                        }
                        session.last_block_number = block_number as u64;
                        session.retries_remaining = DEFAULT_RETRIES;
                        if data.len() < 512 {
                            session.state = SessionState::Completed;
                            TransferStep::FinishWithReply {
                                reply: Message::Ack { block_number },
                                session,
                            }
                        } else {
                            session.state = SessionState::Transferring;
                            registry.register(server_address, session);
                            proof {
                                assert(registry@.dom() =~= old(registry)@.dom().insert(
                                    server_address,
                                ));
                                assert(registry@.remove(server_address) =~= old(
                                    registry,
                                )@.remove(server_address));
                            }
                            TransferStep::Reply(Message::Ack { block_number })
                        }
                    } else {
                        TransferStep::Abort { error: TftpError::UnexpectedMessage }
                    }
                },
            }
        },
        Message::Ack { block_number } => {
            match registry.take_session(server_address) {
                None => TransferStep::Ignore,
                Some(mut session) => {
                    if matches!(session.direction, Direction::Put) && (matches!(
                        session.state,
                        SessionState::Requesting,
                    ) || matches!(session.state, SessionState::Transferring)) {
                        match advance_transfer(&mut session, block_number) {
                            TransferProgress::Completed => TransferStep::Finish { session },
                            TransferProgress::Send(m) => {
                                registry.register(server_address, session);
                                proof {
                                    assert(registry@.dom() =~= old(registry)@.dom().insert(
                                        server_address,
                                    ));
                                    assert(registry@.remove(server_address) =~= old(
                                        registry,
                                    )@.remove(server_address));
                                    if block_number != old(registry)@[server_address].wire_block() {
                                        assert(registry@ =~= old(registry)@);
                                    }
                                }
                                TransferStep::Reply(m)
                            },
                            TransferProgress::Stale => {
                                registry.register(server_address, session);
                                proof {
                                    assert(registry@ =~= old(registry)@);
                                }
                                TransferStep::Ignore
                            },
                        }
                    } else {
                        TransferStep::Abort { error: TftpError::UnexpectedMessage }
                    }
                },
            }
        },
        Message::Error { error_code, error_message } => {
            if registry.get_session(server_address).is_some() {
                registry.deregister(server_address);
                TransferStep::PeerError { error_code, error_message }
            } else {
                TransferStep::Ignore
            }
        },
    }
}

/// `s1` is `s0` with one retransmission spent.
pub open spec fn decremented_session(s0: TftpSessionInfo, s1: TftpSessionInfo) -> bool {
    &&& same_identity(s0, s1)
    &&& s1.state == s0.state
    &&& s1.content == s0.content
    &&& s1.byte_cursor == s0.byte_cursor
    &&& s1.last_block_number == s0.last_block_number
    &&& s1.block_count == s0.block_count
    &&& s1.retries_remaining == s0.retries_remaining - 1
}

/// The packet a session is waiting to have acknowledged: the one a
/// retransmission timer expiry sends once more.
pub open spec fn is_current_packet(s: TftpSessionInfo, m: Message) -> bool {
    match s.direction {
        Direction::Download => is_data_block(m, s.content@, s.last_block_number),
        Direction::Put => if s.state is Requesting || s.last_block_number == 0 {
            m matches Message::WriteRequest { file_name, mode } && file_name@ == s.file_name@
                && mode@ == s.mode@
        } else {
            is_data_block(m, s.content@, s.last_block_number)
        },
        Direction::Get => if s.state is Requesting {
            m matches Message::ReadRequest { file_name, mode } && file_name@ == s.file_name@
                && mode@ == s.mode@
        } else {
            m == (Message::Ack { block_number: s.wire_block() })
        },
        Direction::Upload => m == (Message::Ack { block_number: s.wire_block() }),
    }
}

/// A retransmission timer expired for `address`: retransmits the last
/// unacknowledged packet and spends one retry, or aborts the session once
/// the retry budget is exhausted.
pub fn handle_timeout(registry: &mut SessionRegistry, address: u64) -> (r: TransferStep)
    ensures
        ({
            let reg0 = old(registry)@;
            let reg1 = final(registry)@;
            if !reg0.dom().contains(address) {
                &&& reg1 == reg0
                &&& r is Ignore
            } else {
                let s0 = reg0[address];
                if s0.retries_remaining == 0 {
                    &&& reg1 == reg0.remove(address)
                    &&& r == (TransferStep::Abort { error: TftpError::RetriesExhausted })
                } else {
                    &&& registry_updated_at(reg0, reg1, address)
                    &&& decremented_session(s0, reg1[address])
                    &&& (r matches TransferStep::Reply(m) && is_current_packet(s0, m))
                }
            }
        }),
{
    match registry.take_session(address) {
        None => TransferStep::Ignore,
        Some(mut session) => {
            if session.retries_remaining == 0 {
                TransferStep::Abort { error: TftpError::RetriesExhausted }
            } else {
                session.retries_remaining = session.retries_remaining - 1;
                let m = match session.direction {
                    Direction::Download => {
                        let chunk = read_block(&session.content, session.last_block_number);
                        let length = chunk.len();
                        Message::Data {
                            block_number: (session.last_block_number % 0x10000) as u16,
                            data: chunk,
                            length,
                        }
                    },
                    Direction::Put => {
                        if matches!(session.state, SessionState::Requesting)
                            || session.last_block_number == 0 {
                            Message::WriteRequest {
                                file_name: copy_bytes(&session.file_name),
                                mode: copy_bytes(&session.mode),
                            }
                        } else {
                            let chunk = read_block(&session.content, session.last_block_number);
                            let length = chunk.len();
                            Message::Data {
                                block_number: (session.last_block_number % 0x10000) as u16,
                                data: chunk,
                                length,
                            }
                        }
                    },
                    Direction::Get => {
                        if matches!(session.state, SessionState::Requesting) {
                            Message::ReadRequest {
                                file_name: copy_bytes(&session.file_name),
                                mode: copy_bytes(&session.mode),
                            }
                        } else {
                            Message::Ack {
                                block_number: (session.last_block_number % 0x10000) as u16,
                            }
                        }
                    },
                    Direction::Upload => Message::Ack {
                        block_number: (session.last_block_number % 0x10000) as u16,
                    },
                };
                registry.register(address, session);
                proof {
                    assert(registry@.dom() =~= old(registry)@.dom().insert(address));
                    assert(registry@.remove(address) =~= old(registry)@.remove(address));
                }
                TransferStep::Reply(m)
            }
        },
    }
}

} // verus!
