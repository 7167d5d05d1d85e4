//! The upload session: renegotiate the transfer baud rate, then stream the
//! file in fixed-size chunks under acknowledgment-based flow control.
//!
//! The session is a state machine. The driver that owns the transport and
//! the file performs each [`UploadAction`] and feeds back an
//! [`UploadEvent`]; every protocol decision — what to send, when a missing
//! acknowledgment aborts, which chunk comes next — is taken and verified
//! here. The protocol has no pipelining: chunk `n + 1` is never written
//! before chunk `n`'s acknowledgment has been observed.

use vstd::prelude::*;
use crate::frames::frame_command;
use crate::frames::spec_stop_marker;
use crate::frames::spec_whmi_command;
use crate::frames::stop_marker;
use crate::frames::whmi_command;
use crate::plan::chunk_count;
use crate::plan::chunk_len;
use crate::plan::chunk_offset;
use crate::plan::spec_chunk_count;
use crate::plan::spec_chunk_len;
use crate::plan::spec_chunk_offset;
use crate::timing::chunk_wait_ms;
use crate::timing::spec_chunk_wait_ms;

verus! {

/// Milliseconds the display gets to reconfigure its UART after the
/// negotiation command, before the host reopens the port.
pub const SETTLE_MS: u64 = 50;

/// Bound, in milliseconds, on each wait for an acknowledgment byte.
pub const ACK_POLL_MS: u64 = 500;

/// Why an upload failed. None of these is retried internally; a failed
/// session aborts and the caller decides whether to start over.
#[derive(Clone, Copy, Debug, PartialEq, Eq, Structural)]
pub enum UploadFailure {
    /// The file could not be opened or its size could not be read.
    FileAccess,
    /// The file yielded fewer bytes than its size had promised.
    FileTruncated,
    /// The port could not be reopened at the transfer baud rate.
    TransportReopen,
    /// The display did not acknowledge the new rate and size.
    RenegotiationRejected,
    /// This chunk's write was not acknowledged within the wait window.
    ChunkNotAcknowledged { chunk_index: u64 },
}

/// Where the session stands.
#[derive(Clone, Copy, Debug, PartialEq, Eq, Structural)]
pub enum UploadState {
    /// Stale bytes on the handshake-rate transport are being discarded.
    PurgingStale,
    /// The file's size in bytes is being determined.
    QueryingFileSize,
    /// The empty separator frame is being written.
    SendingSeparator,
    /// The negotiation command frame is being written.
    SendingNegotiation,
    /// The display gets a moment to reconfigure its UART.
    Settling,
    /// The port is being reopened at the transfer baud rate.
    Reopening,
    /// The negotiation acknowledgment is being awaited.
    AwaitingNegotiationAck,
    /// Chunk `index` is being read from the file and written verbatim.
    SendingChunk { index: u64 },
    /// Chunk `index` was written; the display gets time to consume it.
    ChunkSettling { index: u64 },
    /// Chunk `index`'s acknowledgment is being awaited.
    AwaitingChunkAck { index: u64 },
    /// Every chunk was written and acknowledged.
    Done,
    /// The session aborted.
    Failed(UploadFailure),
}

/// What the driver must perform next.
pub enum UploadAction {
    /// Read and discard bytes until a read times out or errors.
    PurgeInput,
    /// Determine the size in bytes of the file to upload.
    QueryFileSize,
    /// Write these bytes to the port.
    Send { bytes: Vec<u8> },
    /// Sleep for this many milliseconds.
    Sleep { ms: u64 },
    /// Close the current port and open a new one at this baud rate.
    ReopenPort { baud: u32 },
    /// Read until the acknowledgment byte appears, giving up after
    /// `timeout_ms`; zero bytes are filler and any other byte is chatter,
    /// neither is an error.
    PollAck { timeout_ms: u64 },
    /// Read `len` bytes of the file starting at `offset` and write them
    /// verbatim to the port, with no per-chunk framing.
    SendFileChunk { offset: u64, len: u64 },
}

/// What performing an action yielded.
#[derive(Clone, Copy, Debug, PartialEq, Eq, Structural)]
pub enum UploadEvent {
    /// The purge ran to its timeout.
    Purged,
    /// The file's size, or `None` if it could not be opened or sized.
    FileSize { size: Option<u64> },
    /// The write completed.
    Sent,
    /// The sleep elapsed.
    Slept,
    /// Whether the port reopened at the new rate.
    ReopenResult { ok: bool },
    /// Whether the acknowledgment byte appeared within the wait window.
    AckPolled { acked: bool },
    /// Whether the file yielded the full chunk and it was written.
    ChunkSent { complete: bool },
}

/// One upload session against one established connection.
pub struct UploadSession {
    /// The baud rate the transfer is renegotiated to.
    pub transfer_baud: u32,
    /// The file size in bytes; learned when the size query answers, zero
    /// before that.
    pub file_size: u64,
    /// Where the session stands.
    pub state: UploadState,
}

/// The event kind each state waits for.
pub open spec fn upload_expects(s: UploadState, e: UploadEvent) -> bool {
    match s {
        UploadState::PurgingStale => e is Purged,
        UploadState::QueryingFileSize => e is FileSize,
        UploadState::SendingSeparator => e is Sent,
        UploadState::SendingNegotiation => e is Sent,
        UploadState::Settling => e is Slept,
        UploadState::Reopening => e is ReopenResult,
        UploadState::AwaitingNegotiationAck => e is AckPolled,
        UploadState::SendingChunk { .. } => e is ChunkSent,
        UploadState::ChunkSettling { .. } => e is Slept,
        UploadState::AwaitingChunkAck { .. } => e is AckPolled,
        UploadState::Done => false,
        UploadState::Failed(_) => false,
    }
}

/// The session transition relation. An unacknowledged negotiation or chunk
/// aborts; an acknowledged chunk advances to the next, or finishes after
/// the last; a file that is all full chunks finishes without any trailing
/// empty chunk.
pub open spec fn spec_upload_step(m: UploadSession, e: UploadEvent) -> UploadSession {
    match (m.state, e) {
        (UploadState::PurgingStale, UploadEvent::Purged) => UploadSession {
            state: UploadState::QueryingFileSize,
            ..m
        },
        (UploadState::QueryingFileSize, UploadEvent::FileSize { size }) => match size {
            Option::Some(s) => UploadSession {
                file_size: s,
                state: UploadState::SendingSeparator,
                ..m
            },
            Option::None => UploadSession {
                state: UploadState::Failed(UploadFailure::FileAccess),
                ..m
            },
        },
        (UploadState::SendingSeparator, UploadEvent::Sent) => UploadSession {
            state: UploadState::SendingNegotiation,
            ..m
        },
        (UploadState::SendingNegotiation, UploadEvent::Sent) => UploadSession {
            state: UploadState::Settling,
            ..m
        },
        (UploadState::Settling, UploadEvent::Slept) => UploadSession {
            state: UploadState::Reopening,
            ..m
        },
        (UploadState::Reopening, UploadEvent::ReopenResult { ok }) => if ok {
            UploadSession { state: UploadState::AwaitingNegotiationAck, ..m }
        } else {
            UploadSession { state: UploadState::Failed(UploadFailure::TransportReopen), ..m }
        },
        (UploadState::AwaitingNegotiationAck, UploadEvent::AckPolled { acked }) => if !acked {
            UploadSession { state: UploadState::Failed(UploadFailure::RenegotiationRejected), ..m }
        } else if spec_chunk_count(m.file_size) == 0 {
            UploadSession { state: UploadState::Done, ..m }
        } else {
            UploadSession { state: UploadState::SendingChunk { index: 0 }, ..m }
        },
        (UploadState::SendingChunk { index }, UploadEvent::ChunkSent { complete }) => if complete {
            UploadSession { state: UploadState::ChunkSettling { index }, ..m }
        } else {
            UploadSession { state: UploadState::Failed(UploadFailure::FileTruncated), ..m }
        },
        (UploadState::ChunkSettling { index }, UploadEvent::Slept) => UploadSession {
            state: UploadState::AwaitingChunkAck { index },
            ..m
        },
        (UploadState::AwaitingChunkAck { index }, UploadEvent::AckPolled { acked }) => if !acked {
            UploadSession {
                state: UploadState::Failed(
                    UploadFailure::ChunkNotAcknowledged { chunk_index: index },
                ),
                ..m
            }
        } else if index + 1 == spec_chunk_count(m.file_size) {
            UploadSession { state: UploadState::Done, ..m }
        } else {
            UploadSession { state: UploadState::SendingChunk { index: (index + 1) as u64 }, ..m }
        },
        _ => m,
    }
}

/// What `next_action` must hand the driver in each state.
pub open spec fn upload_action_ok(m: UploadSession, a: UploadAction) -> bool {
    match m.state {
        UploadState::PurgingStale => a is PurgeInput,
        UploadState::QueryingFileSize => a is QueryFileSize,
        UploadState::SendingSeparator => a matches UploadAction::Send { bytes } && bytes@
            == spec_stop_marker(),
        UploadState::SendingNegotiation => a matches UploadAction::Send { bytes } && bytes@
            == spec_whmi_command(m.file_size, m.transfer_baud) + spec_stop_marker(),
        UploadState::Settling => a == (UploadAction::Sleep { ms: SETTLE_MS }),
        UploadState::Reopening => a == (UploadAction::ReopenPort { baud: m.transfer_baud }),
        UploadState::AwaitingNegotiationAck => a == (UploadAction::PollAck {
            timeout_ms: ACK_POLL_MS,
        }),
        UploadState::SendingChunk { index } => a matches UploadAction::SendFileChunk {
            offset,
            len,
        } && offset == spec_chunk_offset(index as int) && len == spec_chunk_len(
            m.file_size,
            index as int,
        ),
        UploadState::ChunkSettling { .. } => a == (UploadAction::Sleep {
            ms: spec_chunk_wait_ms(m.transfer_baud),
        }),
        UploadState::AwaitingChunkAck { .. } => a == (UploadAction::PollAck {
            timeout_ms: ACK_POLL_MS,
        }),
        UploadState::Done => false,
        UploadState::Failed(_) => false,
    }
}

impl UploadSession {
    /// The transfer baud rate is positive, and any chunk the session is
    /// working on lies inside the plan for the announced file size.
    pub open spec fn wf(self) -> bool {
        &&& self.transfer_baud > 0
        &&& (self.state matches UploadState::SendingChunk { index } ==> (index as int)
            < spec_chunk_count(self.file_size))
        &&& (self.state matches UploadState::ChunkSettling { index } ==> (index as int)
            < spec_chunk_count(self.file_size))
        &&& (self.state matches UploadState::AwaitingChunkAck { index } ==> (index as int)
            < spec_chunk_count(self.file_size))
    }

    /// The session has reached its outcome.
    pub open spec fn spec_done(self) -> bool {
        self.state is Done || self.state is Failed
    }

    /// Begin an upload session that will renegotiate to `transfer_baud`.
    pub fn new(transfer_baud: u32) -> (r: UploadSession)
        requires
            transfer_baud > 0,
        ensures
            r.wf(),
            !r.spec_done(),
            r.transfer_baud == transfer_baud,
            r.file_size == 0,
            r.state is PurgingStale,
    {
        UploadSession { transfer_baud, file_size: 0, state: UploadState::PurgingStale }
    }

    /// The next operation to perform against the transport or the file.
    pub fn next_action(&self) -> (a: UploadAction)
        requires
            self.wf(),
            !self.spec_done(),
        ensures
            upload_action_ok(*self, a),
    {
        match self.state {
            UploadState::PurgingStale => UploadAction::PurgeInput,
            UploadState::QueryingFileSize => UploadAction::QueryFileSize,
            UploadState::SendingSeparator => UploadAction::Send { bytes: stop_marker() },
            UploadState::SendingNegotiation => {
                let command = whmi_command(self.file_size, self.transfer_baud);
                UploadAction::Send { bytes: frame_command(&command) }
            },
            UploadState::Settling => UploadAction::Sleep { ms: SETTLE_MS },
            UploadState::Reopening => UploadAction::ReopenPort { baud: self.transfer_baud },
            UploadState::AwaitingNegotiationAck => UploadAction::PollAck {
                timeout_ms: ACK_POLL_MS,
            },
            UploadState::SendingChunk { index } => UploadAction::SendFileChunk {
                offset: chunk_offset(self.file_size, index),
                len: chunk_len(self.file_size, index),
            },
            UploadState::ChunkSettling { .. } => UploadAction::Sleep {
                ms: chunk_wait_ms(self.transfer_baud),
            },
            UploadState::AwaitingChunkAck { .. } => UploadAction::PollAck {
                timeout_ms: ACK_POLL_MS,
            },
            UploadState::Done => vstd::pervasive::unreached(),
            UploadState::Failed(_) => vstd::pervasive::unreached(),
        }
    }

    /// Consume the outcome of the action just performed.
    pub fn step(&mut self, e: UploadEvent)
        requires
            old(self).wf(),
            !old(self).spec_done(),
            upload_expects(old(self).state, e),
        ensures
            final(self).wf(),
            *final(self) == spec_upload_step(*old(self), e),
    {
        match (self.state, e) {
            (UploadState::PurgingStale, UploadEvent::Purged) => {
                self.state = UploadState::QueryingFileSize;
            },
            (UploadState::QueryingFileSize, UploadEvent::FileSize { size }) => match size {
                Option::Some(s) => {
                    self.file_size = s;
                    self.state = UploadState::SendingSeparator;
                },
                Option::None => {
                    self.state = UploadState::Failed(UploadFailure::FileAccess);
                },
            },
            (UploadState::SendingSeparator, UploadEvent::Sent) => {
                self.state = UploadState::SendingNegotiation;
            },
            (UploadState::SendingNegotiation, UploadEvent::Sent) => {
                self.state = UploadState::Settling;
            },
            (UploadState::Settling, UploadEvent::Slept) => {
                self.state = UploadState::Reopening;
            },
            (UploadState::Reopening, UploadEvent::ReopenResult { ok }) => {
                if ok {
                    self.state = UploadState::AwaitingNegotiationAck;
                } else {
                    self.state = UploadState::Failed(UploadFailure::TransportReopen);
                }
            },
            (UploadState::AwaitingNegotiationAck, UploadEvent::AckPolled { acked }) => {
                if !acked {
                    self.state = UploadState::Failed(UploadFailure::RenegotiationRejected);
                } else if chunk_count(self.file_size) == 0 {
                    self.state = UploadState::Done;
                } else {
                    self.state = UploadState::SendingChunk { index: 0 };
                }
            },
            (UploadState::SendingChunk { index }, UploadEvent::ChunkSent { complete }) => {
                if complete {
                    self.state = UploadState::ChunkSettling { index };
                } else {
                    self.state = UploadState::Failed(UploadFailure::FileTruncated);
                }
            },
            (UploadState::ChunkSettling { index }, UploadEvent::Slept) => {
                self.state = UploadState::AwaitingChunkAck { index };
            },
            (UploadState::AwaitingChunkAck { index }, UploadEvent::AckPolled { acked }) => {
                if !acked {
                    self.state = UploadState::Failed(
                        UploadFailure::ChunkNotAcknowledged { chunk_index: index },
                    );
                } else if index + 1 == chunk_count(self.file_size) {
                    self.state = UploadState::Done;
                } else {
                    self.state = UploadState::SendingChunk { index: index + 1 };
                }
            },
            _ => {
                proof {
                    assert(false);
                }
            },
        }
    }

    /// Whether the session has reached its outcome.
    pub fn is_done(&self) -> (r: bool)
        ensures
            r == self.spec_done(),
    {
        match self.state {
            UploadState::Done => true,
            UploadState::Failed(_) => true,
            _ => false,
        }
    }

    /// The outcome: success, the failure, or nothing while the session is
    /// still under way.
    pub fn outcome(&self) -> (r: Option<Result<(), UploadFailure>>)
        ensures
            match self.state {
                UploadState::Done => r == Some(Ok::<(), UploadFailure>(())),
                UploadState::Failed(f) => r == Some(Err::<(), UploadFailure>(f)),
                _ => r is None,
            },
    {
        match self.state {
            UploadState::Done => Some(Ok(())),
            UploadState::Failed(f) => Some(Err(f)),
            _ => None,
        }
    }

    /// How many chunks have been written and acknowledged so far, and how
    /// many the plan holds in all — a progress tick for the caller's UI.
    pub fn progress(&self) -> (r: (u64, u64))
        requires
            self.wf(),
        ensures
            r.1 == spec_chunk_count(self.file_size),
            self.state matches UploadState::SendingChunk { index } ==> r.0 == index,
            self.state matches UploadState::ChunkSettling { index } ==> r.0 == index,
            self.state matches UploadState::AwaitingChunkAck { index } ==> r.0 == index,
            self.state is Done ==> r.0 == r.1,
            r.0 <= r.1,
    {
        let total = chunk_count(self.file_size);
        let done: u64 = match self.state {
            UploadState::SendingChunk { index } => index,
            UploadState::ChunkSettling { index } => index,
            UploadState::AwaitingChunkAck { index } => index,
            UploadState::Done => total,
            _ => 0,
        };
        (done, total)
    }
}

/// Flow control: a step that moves the session to writing chunk `i` can
/// only have consumed an observed acknowledgment — of the negotiation when
/// `i` is the first chunk, of chunk `i - 1` otherwise. No chunk is ever
/// written before its predecessor's acknowledgment.
pub proof fn lemma_no_write_before_previous_ack(m: UploadSession, e: UploadEvent, i: u64)
    requires
        m.wf(),
        upload_expects(m.state, e),
        spec_upload_step(m, e).state == (UploadState::SendingChunk { index: i }),
    ensures
        e == (UploadEvent::AckPolled { acked: true }),
        i == 0 ==> m.state is AwaitingNegotiationAck,
        i > 0 ==> m.state == (UploadState::AwaitingChunkAck { index: (i - 1) as u64 }),
{
    match m.state {
        UploadState::AwaitingChunkAck { index } => {
            vstd::arithmetic::div_mod::lemma_div_nonincreasing(m.file_size as int, 4096);
            assert(spec_chunk_count(m.file_size) <= m.file_size as int + 1);
        },
        _ => {},
    }
}

/// A session finishes successfully only on an observed acknowledgment: of
/// the plan's last chunk, or of the negotiation itself when the file has
/// no chunks at all.
pub proof fn lemma_done_needs_final_ack(m: UploadSession, e: UploadEvent)
    requires
        upload_expects(m.state, e),
        m.wf(),
        spec_upload_step(m, e).state is Done,
    ensures
        e == (UploadEvent::AckPolled { acked: true }),
        m.state is AwaitingNegotiationAck ==> spec_chunk_count(m.file_size) == 0,
        m.state matches UploadState::AwaitingChunkAck { index } ==> index as int + 1
            == spec_chunk_count(m.file_size),
        m.state is AwaitingNegotiationAck || m.state is AwaitingChunkAck,
{
}

} // verus!
