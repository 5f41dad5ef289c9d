//! The message codec: the exact byte-wire form of each packet, an encoder
//! and a decoder proved inverse to each other, and the spec-level layout
//! they are both held to.
use vstd::prelude::*;

use crate::TftpError;

verus! {

/// Packet kind tag carried in the first two bytes of every datagram.
#[derive(Clone, Copy, Debug, PartialEq, Eq, Structural)]
pub enum OpCode {
    Read,
    Write,
    Data,
    Ack,
    Error,
}

/// A decoded packet. `Data.length` always equals `Data.data.len()` and no
/// data block carries more than 512 payload bytes (see [`Message::wf`]).
#[derive(Clone, Debug, PartialEq, Eq)]
pub enum Message {
    ReadRequest { file_name: Vec<u8>, mode: Vec<u8> },
    WriteRequest { file_name: Vec<u8>, mode: Vec<u8> },
    Data { block_number: u16, data: Vec<u8>, length: usize },
    Ack { block_number: u16 },
    Error { error_code: u16, error_message: Vec<u8> },
}

/// The mathematical value of a packet: what two packets must share to be
/// semantically equal. The redundant `length` field is dropped here.
#[verifier::ext_equal]
pub enum MessageView {
    ReadRequest { file_name: Seq<u8>, mode: Seq<u8> },
    WriteRequest { file_name: Seq<u8>, mode: Seq<u8> },
    Data { block_number: u16, data: Seq<u8> },
    Ack { block_number: u16 },
    Error { error_code: u16, error_message: Seq<u8> },
}

impl View for Message {
    type V = MessageView;

    open spec fn view(&self) -> MessageView {
        match self {
            Message::ReadRequest { file_name, mode } => (MessageView::ReadRequest {
                file_name: file_name@,
                mode: mode@,
            }),
            Message::WriteRequest { file_name, mode } => (MessageView::WriteRequest {
                file_name: file_name@,
                mode: mode@,
            }),
            Message::Data { block_number, data, length: _ } => (MessageView::Data {
                block_number: *block_number,
                data: data@,
            }),
            Message::Ack { block_number } => (MessageView::Ack { block_number: *block_number }),
            Message::Error { error_code, error_message } => (MessageView::Error {
                error_code: *error_code,
                error_message: error_message@,
            }),
        }
    }
}

/// No byte of `s` is the NUL terminator, so `s` can stand as a
/// null-terminated field on the wire.
pub open spec fn no_nul(s: Seq<u8>) -> bool {
    forall|i: int| 0 <= i < s.len() ==> s[i] != 0
}

impl MessageView {
    /// The packet invariant: string fields are representable between NUL
    /// terminators and a data block holds at most 512 payload bytes.
    pub open spec fn wf(self) -> bool {
        match self {
            MessageView::ReadRequest { file_name, mode } => no_nul(file_name) && no_nul(mode),
            MessageView::WriteRequest { file_name, mode } => no_nul(file_name) && no_nul(mode),
            MessageView::Data { block_number: _, data } => data.len() <= 512,
            MessageView::Ack { .. } => true,
            MessageView::Error { error_code: _, error_message } => no_nul(error_message),
        }
    }
}

impl Message {
    /// The packet invariant, plus the bookkeeping fact that `length`
    /// records the payload size.
    pub open spec fn wf(self) -> bool {
        &&& self@.wf()
        &&& (self matches Message::Data { data, length, .. } ==> length == data@.len())
    }
}

/// High byte of a big-endian 16-bit field.
pub open spec fn high_byte(x: u16) -> u8 {
    (x / 256) as u8
}

/// Low byte of a big-endian 16-bit field.
pub open spec fn low_byte(x: u16) -> u8 {
    (x % 256) as u8
}

/// The 16-bit value read big-endian from two bytes.
pub open spec fn word_of(hi: u8, lo: u8) -> u16 {
    ((hi as int) * 256 + (lo as int)) as u16
}

/// The exact wire form of a packet: opcode in the first two bytes,
/// big-endian 16-bit fields, string fields null-terminated.
pub open spec fn spec_encode(m: MessageView) -> Seq<u8> {
    match m {
        MessageView::ReadRequest { file_name, mode } => seq![0u8, 1u8] + file_name + seq![0u8]
            + mode + seq![0u8],
        MessageView::WriteRequest { file_name, mode } => seq![0u8, 2u8] + file_name + seq![0u8]
            + mode + seq![0u8],
        MessageView::Data { block_number, data } => seq![
            0u8,
            3u8,
            high_byte(block_number),
            low_byte(block_number),
        ] + data,
        MessageView::Ack { block_number } => seq![
            0u8,
            4u8,
            high_byte(block_number),
            low_byte(block_number),
        ],
        MessageView::Error { error_code, error_message } => seq![
            0u8,
            5u8,
            high_byte(error_code),
            low_byte(error_code),
        ] + error_message + seq![0u8],
    }
}

/// Position of the first NUL byte of `b` at or after `i`, if any.
pub open spec fn find_nul(b: Seq<u8>, i: nat) -> Option<nat>
    decreases b.len() - i,
{
    if i >= b.len() {
        None
    } else if b[i as int] == 0 {
        Some(i)
    } else {
        find_nul(b, i + 1)
    }
}

/// The opcode of a datagram, if its first two bytes carry a recognized one.
pub open spec fn spec_opcode(b: Seq<u8>) -> Option<OpCode> {
    if b.len() < 2 {
        None
    } else {
        let v = word_of(b[0], b[1]);
        if v == 1 {
            Some(OpCode::Read)
        } else if v == 2 {
            Some(OpCode::Write)
        } else if v == 3 {
            Some(OpCode::Data)
        } else if v == 4 {
            Some(OpCode::Ack)
        } else if v == 5 {
            Some(OpCode::Error)
        } else {
            None
        }
    }
}

/// The packet a datagram decodes to, or `None` where the datagram is
/// malformed: too short, unrecognized opcode, a missing NUL terminator, or
/// an oversized data payload.
pub open spec fn spec_decode(b: Seq<u8>) -> Option<MessageView> {
    match spec_opcode(b) {
        None => None,
        Some(OpCode::Read) => match find_nul(b, 2) {
            None => None,
            Some(j) => match find_nul(b, j + 1) {
                None => None,
                Some(k) => Some(
                    MessageView::ReadRequest {
                        file_name: b.subrange(2, j as int),
                        mode: b.subrange(j as int + 1, k as int),
                    },
                ),
            },
        },
        Some(OpCode::Write) => match find_nul(b, 2) {
            None => None,
            Some(j) => match find_nul(b, j + 1) {
                None => None,
                Some(k) => Some(
                    MessageView::WriteRequest {
                        file_name: b.subrange(2, j as int),
                        mode: b.subrange(j as int + 1, k as int),
                    },
                ),
            },
        },
        Some(OpCode::Data) => if b.len() < 4 || b.len() > 4 + 512 {
            None
        } else {
            Some(
                MessageView::Data {
                    block_number: word_of(b[2], b[3]),
                    data: b.subrange(4, b.len() as int),
                },
            )
        },
        Some(OpCode::Ack) => if b.len() < 4 {
            None
        } else {
            Some(MessageView::Ack { block_number: word_of(b[2], b[3]) })
        },
        Some(OpCode::Error) => if b.len() < 4 {
            None
        } else {
            match find_nul(b, 4) {
                None => None,
                Some(j) => Some(
                    MessageView::Error {
                        error_code: word_of(b[2], b[3]),
                        error_message: b.subrange(4, j as int),
                    },
                ),
            }
        },
    }
}

/// Encodes a request packet: opcode, then the two null-terminated fields.
fn encode_request(opcode: u8, file_name: &Vec<u8>, mode: &Vec<u8>) -> (r: Vec<u8>)
    ensures
        r@ == seq![0u8, opcode] + file_name@ + seq![0u8] + mode@ + seq![0u8],
{
    let mut message: Vec<u8> = Vec::new();
    message.push(0);
    message.push(opcode);
    message.extend_from_slice(file_name.as_slice());
    message.push(0);
    message.extend_from_slice(mode.as_slice());
    message.push(0);
    proof {
        assert(message@ =~= seq![0u8, opcode] + file_name@ + seq![0u8] + mode@ + seq![0u8]);
    }
    message
}

/// Encodes a packet into its exact wire form.
pub fn build_message(tftp_message: Message) -> (r: Vec<u8>)
    ensures
        r@ == spec_encode(tftp_message@),
{
    match tftp_message {
        Message::ReadRequest { file_name, mode } => encode_request(1, &file_name, &mode),
        Message::WriteRequest { file_name, mode } => encode_request(2, &file_name, &mode),
        Message::Data { block_number, data, length: _ } => {
            let mut message: Vec<u8> = Vec::new();
            message.push(0);
            message.push(3);
            message.push((block_number / 256) as u8);
            message.push((block_number % 256) as u8);
            message.extend_from_slice(data.as_slice());
            proof {
                assert(message@ =~= seq![
                    0u8,
                    3u8,
                    high_byte(block_number),
                    low_byte(block_number),
                ] + data@);
            }
            message
        },
        Message::Ack { block_number } => {
            let mut message: Vec<u8> = Vec::new();
            message.push(0);
            message.push(4);
            message.push((block_number / 256) as u8);
            message.push((block_number % 256) as u8);
            proof {
                assert(message@ =~= seq![
                    0u8,
                    4u8,
                    high_byte(block_number),
                    low_byte(block_number),
                ]);
            }
            message
        },
        Message::Error { error_code, error_message } => {
            let mut message: Vec<u8> = Vec::new();
            message.push(0);
            message.push(5);
            message.push((error_code / 256) as u8);
            message.push((error_code % 256) as u8);
            message.extend_from_slice(error_message.as_slice());
            message.push(0);
            proof {
                assert(message@ =~= seq![
                    0u8,
                    5u8,
                    high_byte(error_code),
                    low_byte(error_code),
                ] + error_message@ + seq![0u8]);
            }
            message
        },
    }
}

/// Reads the opcode off a datagram, or `None` where the datagram is
/// shorter than two bytes or its opcode is not a recognized one.
pub fn extract_opcode(buffer: &[u8]) -> (r: Option<OpCode>)
    ensures
        r == spec_opcode(buffer@),
{
    if buffer.len() < 2 {
        return None;
    }
    let v: u16 = (buffer[0] as u16) * 256 + (buffer[1] as u16);
    if v == 1 {
        Some(OpCode::Read)
    } else if v == 2 {
        Some(OpCode::Write)
    } else if v == 3 {
        Some(OpCode::Data)
    } else if v == 4 {
        Some(OpCode::Ack)
    } else if v == 5 {
        Some(OpCode::Error)
    } else {
        None
    }
}

/// `find_nul` finds a NUL exactly where a linear scan does.
proof fn lemma_find_nul_some(b: Seq<u8>, i: nat, k: nat)
    requires
        i <= k < b.len(),
        b[k as int] == 0,
        forall|t: int| i <= t < k ==> b[t] != 0,
    ensures
        find_nul(b, i) == Some(k),
    decreases k - i,
{
    if i < k {
        lemma_find_nul_some(b, i + 1, k);
    }
}

/// A scan that reaches the end without a NUL settles `find_nul` to `None`.
proof fn lemma_find_nul_none(b: Seq<u8>, i: nat)
    requires
        i <= b.len(),
        forall|t: int| i <= t < b.len() ==> b[t] != 0,
    ensures
        find_nul(b, i) is None,
    decreases b.len() - i,
{
    if i < b.len() {
        lemma_find_nul_none(b, i + 1);
    }
}

/// Scans for the first NUL byte at or after `start`.
fn scan_nul(buffer: &[u8], start: usize) -> (r: Option<usize>)
    requires
        start <= buffer@.len(),
    ensures
        match r {
            Some(j) => {
                &&& find_nul(buffer@, start as nat) == Some(j as nat)
                &&& start <= j < buffer@.len()
                &&& buffer@[j as int] == 0
                &&& forall|t: int| start <= t < j ==> buffer@[t] != 0
            },
            None => find_nul(buffer@, start as nat) is None,
        },
{
    let mut i = start;
    while i < buffer.len()
        invariant
            start <= i <= buffer@.len(),
            forall|t: int| start <= t < i ==> buffer@[t] != 0,
        decreases buffer@.len() - i,
    {
        if buffer[i] == 0 {
            proof {
                lemma_find_nul_some(buffer@, start as nat, i as nat);
            }
            return Some(i);
        }
        i = i + 1;
    }
    proof {
        lemma_find_nul_none(buffer@, start as nat);
    }
    None
}

/// Decodes a datagram into an owned packet, or fails with
/// [`TftpError::MalformedPacket`] exactly where the wire layout does not
/// fit. The payload of a data block is copied out of the receive buffer.
pub fn extract_message(buffer: &[u8]) -> (r: Result<Message, TftpError>)
    ensures
        match spec_decode(buffer@) {
            Some(v) => r matches Ok(m) && m@ == v && m.wf(),
            None => r == Err::<Message, TftpError>(TftpError::MalformedPacket),
        },
{
    let opcode = match extract_opcode(buffer) {
        Some(op) => op,
        None => {
            return Err(TftpError::MalformedPacket);
        },
    };
    match opcode {
        OpCode::Read | OpCode::Write => {
            let n = buffer.len();
            let j = match scan_nul(buffer, 2) {
                Some(j) => j,
                None => {
                    return Err(TftpError::MalformedPacket);
                },
            };
            assert(j < n);
            let k = match scan_nul(buffer, j + 1) {
                Some(k) => k,
                None => {
                    return Err(TftpError::MalformedPacket);
                },
            };
            let file_name = vstd::slice::slice_to_vec(&buffer[2..j]);
            let mode = vstd::slice::slice_to_vec(&buffer[j + 1..k]);
            if matches!(opcode, OpCode::Read) {
                Ok(Message::ReadRequest { file_name, mode })
            } else {
                Ok(Message::WriteRequest { file_name, mode })
            }
        },
        OpCode::Data => {
            if buffer.len() < 4 || buffer.len() > 4 + 512 {
                return Err(TftpError::MalformedPacket);
            }
            let block_number: u16 = (buffer[2] as u16) * 256 + (buffer[3] as u16);
            let data = vstd::slice::slice_to_vec(&buffer[4..buffer.len()]);
            let length = data.len();
            Ok(Message::Data { block_number, data, length })
        },
        OpCode::Ack => {
            if buffer.len() < 4 {
                return Err(TftpError::MalformedPacket);
            }
            let block_number: u16 = (buffer[2] as u16) * 256 + (buffer[3] as u16);
            Ok(Message::Ack { block_number })
        },
        OpCode::Error => {
            if buffer.len() < 4 {
                return Err(TftpError::MalformedPacket);
            }
            let error_code: u16 = (buffer[2] as u16) * 256 + (buffer[3] as u16);
            let j = match scan_nul(buffer, 4) {
                Some(j) => j,
                None => {
                    return Err(TftpError::MalformedPacket);
                },
            };
            let error_message = vstd::slice::slice_to_vec(&buffer[4..j]);
            Ok(Message::Error { error_code, error_message })
        },
    }
}

/// Round trip: a well-formed packet decodes from its own encoding back to
/// the same value.
pub proof fn lemma_encode_decode(m: MessageView)
    requires
        m.wf(),
    ensures
        spec_decode(spec_encode(m)) == Some(m),
{
    let b = spec_encode(m);
    match m {
        MessageView::ReadRequest { file_name, mode } => {
            lemma_request_round_trip(b, file_name, mode);
        },
        MessageView::WriteRequest { file_name, mode } => {
            lemma_request_round_trip(b, file_name, mode);
        },
        MessageView::Data { block_number, data } => {
            assert(b.len() == 4 + data.len());
            assert(word_of(b[0], b[1]) == 3);
            assert(word_of(high_byte(block_number), low_byte(block_number)) == block_number);
            assert(b.subrange(4, b.len() as int) =~= data);
        },
        MessageView::Ack { block_number } => {
            assert(word_of(b[0], b[1]) == 4);
            assert(word_of(high_byte(block_number), low_byte(block_number)) == block_number);
        },
        MessageView::Error { error_code, error_message } => {
            assert(b.len() == 4 + error_message.len() + 1);
            assert(word_of(b[0], b[1]) == 5);
            assert(word_of(high_byte(error_code), low_byte(error_code)) == error_code);
            let j = (4 + error_message.len()) as nat;
            assert(b[j as int] == 0);
            assert(forall|t: int| 4 <= t < j ==> b[t] == error_message[t - 4]);
            lemma_find_nul_some(b, 4, j);
            assert(b.subrange(4, j as int) =~= error_message);
        },
    }
}

/// The request layout round-trips: both null-terminated fields are found
/// again where the encoder put them.
proof fn lemma_request_round_trip(b: Seq<u8>, file_name: Seq<u8>, mode: Seq<u8>)
    requires
        no_nul(file_name),
        no_nul(mode),
        b == seq![0u8, 1u8] + file_name + seq![0u8] + mode + seq![0u8] || b == seq![0u8, 2u8]
            + file_name + seq![0u8] + mode + seq![0u8],
    ensures
        find_nul(b, 2) == Some((2 + file_name.len()) as nat),
        find_nul(b, 2 + file_name.len() + 1) == Some((2 + file_name.len() + 1 + mode.len()) as nat),
        b.subrange(2, 2 + file_name.len() as int) =~= file_name,
        b.subrange(
            2 + file_name.len() as int + 1,
            2 + file_name.len() as int + 1 + mode.len() as int,
        ) =~= mode,
{
    let j = (2 + file_name.len()) as nat;
    let k = (j + 1 + mode.len()) as nat;
    assert(b.len() == k + 1);
    assert(b[j as int] == 0);
    assert(b[k as int] == 0);
    assert(forall|t: int| 2 <= t < j ==> b[t] == file_name[t - 2]);
    assert(forall|t: int| j + 1 <= t < k ==> b[t] == mode[t - (j + 1)]);
    lemma_find_nul_some(b, 2, j);
    lemma_find_nul_some(b, j + 1, k);
}

} // verus!
