//! Per-peer transfer sessions and the block arithmetic they obey: how a
//! file is cut into numbered blocks, which block is the terminal one, and
//! the well-formedness every live session keeps.
use vstd::prelude::*;

verus! {

/// Retry budget armed when a transfer starts: how many times the last
/// unacknowledged packet may be retransmitted before the session aborts.
pub const DEFAULT_RETRIES: u8 = 5;

/// The role of a session in a transfer: the server serves a `Download`
/// (its peer reads) or an `Upload` (its peer writes); the client runs a
/// `Get` (it reads) or a `Put` (it writes).
#[derive(Clone, Copy, Debug, PartialEq, Eq, Structural)]
pub enum Direction {
    Download,
    Upload,
    Get,
    Put,
}

/// Lifecycle of a session. `Completed` and `Aborted` are terminal and the
/// session is removed from the registry as it reaches them.
#[derive(Clone, Copy, Debug, PartialEq, Eq, Structural)]
pub enum SessionState {
    Requesting,
    Transferring,
    Completed,
    Aborted,
}

/// One per remote peer, alive only while a transfer is in progress.
///
/// For the sending directions (`Download`, `Put`) `content` is the whole
/// file being sent, `last_block_number` the highest block sent so far and
/// `block_count` the number of the terminal block. For the receiving
/// directions (`Upload`, `Get`) `content` accumulates the payloads received
/// so far and `last_block_number` echoes the wire number last acknowledged.
#[derive(Clone, Debug, PartialEq, Eq)]
pub struct TftpSessionInfo {
    pub file_name: Vec<u8>,
    pub mode: Vec<u8>,
    pub direction: Direction,
    pub state: SessionState,
    pub content: Vec<u8>,
    pub byte_cursor: usize,
    pub last_block_number: u64,
    pub block_count: u64,
    pub retries_remaining: u8,
}

/// Number of the terminal block of a file of `len` bytes: every full 512
/// bytes fill one block, and one more block carries the short (possibly
/// empty) tail that ends the transfer.
pub open spec fn expected_final_block_of(len: nat) -> nat {
    len / 512 + 1
}

/// First byte offset of block `k` (blocks are numbered from 1).
pub open spec fn block_start(k: nat) -> nat {
    if k == 0 {
        0
    } else {
        ((k - 1) * 512) as nat
    }
}

/// One-past-the-last byte offset of block `k` in a file of `len` bytes.
pub open spec fn block_end(len: nat, k: nat) -> nat {
    if k * 512 <= len {
        k * 512
    } else {
        len
    }
}

/// The bytes block `k` carries out of `content`.
pub open spec fn block_data(content: Seq<u8>, k: nat) -> Seq<u8>
    recommends
        1 <= k <= expected_final_block_of(content.len()),
{
    content.subrange(block_start(k) as int, block_end(content.len(), k) as int)
}

/// Block layout law: every block up to the terminal one lies inside the
/// file, a block before the terminal one is exactly 512 bytes, and the
/// terminal block is the short tail — strictly fewer than 512 bytes.
pub proof fn lemma_block_layout(len: nat, k: nat)
    requires
        1 <= k <= expected_final_block_of(len),
    ensures
        block_start(k) <= block_end(len, k) <= len,
        block_end(len, k) - block_start(k) <= 512,
        k < expected_final_block_of(len) ==> block_end(len, k) - block_start(k) == 512,
        k == expected_final_block_of(len) ==> block_end(len, k) - block_start(k) == len % 512,
        k == expected_final_block_of(len) ==> block_end(len, k) - block_start(k) < 512,
{
    assert(len == 512 * (len / 512) + len % 512);
}

impl TftpSessionInfo {
    /// Whether this session sends file content (and so advances by Acks).
    pub open spec fn is_sender(self) -> bool {
        self.direction is Download || self.direction is Put
    }

    /// The 16-bit wire form of the last block number; block numbers wrap
    /// modulo 65536 on the wire.
    pub open spec fn wire_block(self) -> u16 {
        (self.last_block_number % 0x10000) as u16
    }

    /// Well-formedness of a sending session: the terminal block number was
    /// computed from the file length, progress never passes it, the byte
    /// cursor stands exactly at the end of the last block sent, and a
    /// session that has sent anything has sent block 1 first.
    pub open spec fn wf(self) -> bool {
        self.is_sender() ==> {
            &&& self.block_count == expected_final_block_of(self.content@.len())
            &&& self.last_block_number <= self.block_count
            &&& self.byte_cursor == block_end(
                self.content@.len(),
                self.last_block_number as nat,
            )
            &&& (self.direction is Download ==> 1 <= self.last_block_number)
            &&& (self.direction is Put && self.state is Transferring ==> 1
                <= self.last_block_number)
        }
    }

    /// A fresh, empty session: no transfer in progress yet.
    pub fn new() -> (r: Self)
        ensures
            r.file_name@ == Seq::<u8>::empty(),
            r.mode@ == Seq::<u8>::empty(),
            r.direction is Get,
            r.state is Requesting,
            r.content@ == Seq::<u8>::empty(),
            r.byte_cursor == 0,
            r.last_block_number == 0,
            r.block_count == 0,
            r.retries_remaining == DEFAULT_RETRIES,
            r.wf(),
    {
        TftpSessionInfo {
            file_name: Vec::new(),
            mode: Vec::new(),
            direction: Direction::Get,
            state: SessionState::Requesting,
            content: Vec::new(),
            byte_cursor: 0,
            last_block_number: 0,
            block_count: 0,
            retries_remaining: DEFAULT_RETRIES,
        }
    }
}

/// Termination rule for a sending session: the transfer stands at its
/// terminal block exactly when the block last sent carries fewer than 512
/// bytes. One acknowledgement completes a transfer exactly when it
/// acknowledges the last block sent and that block was the terminal one
/// (see `advance_transfer`), so with this law a transfer completes exactly
/// when a short block has been both sent and acknowledged — never earlier,
/// and never without it.
pub proof fn lemma_termination_rule(s: TftpSessionInfo)
    requires
        s.wf(),
        s.is_sender(),
        1 <= s.last_block_number,
    ensures
        s.last_block_number == s.block_count <==> block_data(
            s.content@,
            s.last_block_number as nat,
        ).len() < 512,
{
    lemma_block_layout(s.content@.len(), s.last_block_number as nat);
}

/// Computes the terminal block number for a file of `len` bytes.
pub fn expected_final_block(len: usize) -> (r: u64)
    ensures
        r == expected_final_block_of(len as nat),
{
    (len as u64) / 512 + 1
}

/// Copies block `k` out of `content`: 512 bytes, or the short tail for the
/// terminal block.
pub fn read_block(content: &Vec<u8>, k: u64) -> (chunk: Vec<u8>)
    requires
        1 <= k <= expected_final_block_of(content@.len()),
    ensures
        chunk@ == block_data(content@, k as nat),
        chunk@.len() <= 512,
{
    proof {
        lemma_block_layout(content@.len(), k as nat);
    }
    let len = content.len();
    let start: usize = ((k - 1) * 512) as usize;
    let end: usize = if len - start >= 512 {
        start + 512
    } else {
        len
    };
    let chunk = vstd::slice::slice_to_vec(&content.as_slice()[start..end]);
    proof {
        assert(chunk@ =~= block_data(content@, k as nat));
    }
    chunk
}

} // verus!
