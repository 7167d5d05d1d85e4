//! The handshake with the display at one given baud rate.
//!
//! The exchange is strictly sequential — open the port, purge stale input,
//! send the probe frame, read the five-byte reply — so it is modelled as a
//! state machine: [`Handshake::next_action`] says what to perform against
//! the transport, and [`Handshake::step`] consumes what came back. The
//! driver that owns the transport performs the actions; every decision
//! about the bytes is taken here.

use vstd::prelude::*;
use crate::frames::connect_command;
use crate::frames::reply_is_comok;
use crate::frames::spec_comok;
use crate::frames::spec_connect_command;
use crate::timing::connect_timeout_ms;
use crate::timing::spec_connect_timeout_ms;

verus! {

/// Why a connection attempt failed.
#[derive(Clone, Copy, Debug, PartialEq, Eq, Structural)]
pub enum ConnectFailure {
    /// The port could not be opened at the requested baud rate.
    TransportOpen,
    /// The display sent nothing within the handshake timeout.
    NoResponse,
    /// The display answered, but not with `comok`.
    UnexpectedResponse,
    /// Every candidate baud rate was tried and none handshook.
    NoBaudFound,
}

/// An established, handshaken link to one display.
pub struct Connection {
    /// The device path the port was opened at.
    pub device: String,
    /// The baud rate at which the handshake succeeded.
    pub baud_rate: u32,
}

impl Connection {
    /// Record an established link: created only once a handshake has
    /// reached [`HandshakeState::Established`].
    pub fn new(device: String, baud_rate: u32) -> (r: Connection)
        requires
            baud_rate > 0,
        ensures
            r.device == device,
            r.baud_rate == baud_rate,
            r.baud_rate > 0,
    {
        Connection { device, baud_rate }
    }
}

/// Where the handshake stands.
#[derive(Clone, Copy, Debug, PartialEq, Eq, Structural)]
pub enum HandshakeState {
    /// The port at the probe baud rate is being opened.
    Opening,
    /// Stale receive-buffer bytes are being read and discarded.
    Purging,
    /// The probe frame is being written.
    SendingConnect,
    /// The five-byte reply is being read under the handshake timeout.
    AwaitingReply,
    /// The display answered `comok`: the link stands.
    Established,
    /// The attempt is over, unsuccessfully.
    Failed(ConnectFailure),
}

/// What the driver must perform against the transport next.
pub enum HandshakeAction {
    /// Open the serial port at this baud rate.
    OpenPort { baud: u32 },
    /// Read and discard bytes until a read times out or errors;
    /// best-effort, it never fails the handshake.
    PurgeInput,
    /// Write these bytes to the port.
    Send { bytes: Vec<u8> },
    /// Read exactly `count` bytes, giving up after `timeout_ms`.
    ReadReply { count: usize, timeout_ms: u64 },
}

/// What performing an action yielded.
pub enum HandshakeEvent {
    /// Whether the port opened.
    OpenResult { ok: bool },
    /// The purge ran to its timeout.
    Purged,
    /// The write completed.
    Sent,
    /// The bytes read, or `None` if the read timed out or errored.
    Reply { reply: Option<Vec<u8>> },
}

/// The event kind each state waits for.
pub open spec fn handshake_expects(s: HandshakeState, e: HandshakeEvent) -> bool {
    match s {
        HandshakeState::Opening => e is OpenResult,
        HandshakeState::Purging => e is Purged,
        HandshakeState::SendingConnect => e is Sent,
        HandshakeState::AwaitingReply => e is Reply,
        HandshakeState::Established => false,
        HandshakeState::Failed(_) => false,
    }
}

/// The handshake transition relation: a failed open aborts, the purge and
/// the probe write always advance, and the reply alone decides the outcome
/// — `comok` establishes, any other payload is `UnexpectedResponse`,
/// silence is `NoResponse`.
pub open spec fn spec_handshake_step(s: HandshakeState, e: HandshakeEvent) -> HandshakeState {
    match (s, e) {
        (HandshakeState::Opening, HandshakeEvent::OpenResult { ok }) => if ok {
            HandshakeState::Purging
        } else {
            HandshakeState::Failed(ConnectFailure::TransportOpen)
        },
        (HandshakeState::Purging, HandshakeEvent::Purged) => HandshakeState::SendingConnect,
        (HandshakeState::SendingConnect, HandshakeEvent::Sent) => HandshakeState::AwaitingReply,
        (HandshakeState::AwaitingReply, HandshakeEvent::Reply { reply }) => match reply {
            Option::None => HandshakeState::Failed(ConnectFailure::NoResponse),
            Option::Some(bytes) => if bytes@ == spec_comok() {
                HandshakeState::Established
            } else {
                HandshakeState::Failed(ConnectFailure::UnexpectedResponse)
            },
        },
        _ => s,
    }
}

/// What `next_action` must hand the driver in each state.
pub open spec fn handshake_action_ok(m: Handshake, a: HandshakeAction) -> bool {
    match m.state {
        HandshakeState::Opening => a == (HandshakeAction::OpenPort { baud: m.baud }),
        HandshakeState::Purging => a is PurgeInput,
        HandshakeState::SendingConnect => a matches HandshakeAction::Send { bytes } && bytes@
            == spec_connect_command(),
        HandshakeState::AwaitingReply => a matches HandshakeAction::ReadReply { count, timeout_ms }
            && count == 5 && timeout_ms == spec_connect_timeout_ms(m.baud),
        HandshakeState::Established => false,
        HandshakeState::Failed(_) => false,
    }
}

/// One handshake attempt at one baud rate. No retry happens at this level:
/// retrying other baud rates is [`crate::autodetect::Autodetect`]'s job.
pub struct Handshake {
    /// The baud rate this attempt probes.
    pub baud: u32,
    /// Where the attempt stands.
    pub state: HandshakeState,
}

impl Handshake {
    /// A baud rate of zero is an invalid input, never a recoverable error.
    pub open spec fn wf(self) -> bool {
        self.baud > 0
    }

    /// The attempt has reached its outcome.
    pub open spec fn spec_done(self) -> bool {
        self.state is Established || self.state is Failed
    }

    /// Begin a handshake attempt at `baud`.
    pub fn new(baud: u32) -> (r: Handshake)
        requires
            baud > 0,
        ensures
            r.wf(),
            r.baud == baud,
            r.state is Opening,
    {
        Handshake { baud, state: HandshakeState::Opening }
    }

    /// The next transport operation to perform for this attempt.
    pub fn next_action(&self) -> (a: HandshakeAction)
        requires
            self.wf(),
            !self.spec_done(),
        ensures
            handshake_action_ok(*self, a),
    {
        match self.state {
            HandshakeState::Opening => HandshakeAction::OpenPort { baud: self.baud },
            HandshakeState::Purging => HandshakeAction::PurgeInput,
            HandshakeState::SendingConnect => HandshakeAction::Send {
                bytes: connect_command(),
            },
            HandshakeState::AwaitingReply => HandshakeAction::ReadReply {
                count: 5,
                timeout_ms: connect_timeout_ms(self.baud),
            },
            HandshakeState::Established => vstd::pervasive::unreached(),
            HandshakeState::Failed(_) => vstd::pervasive::unreached(),
        }
    }

    /// Consume the outcome of the action just performed.
    pub fn step(&mut self, e: HandshakeEvent)
        requires
            old(self).wf(),
            !old(self).spec_done(),
            handshake_expects(old(self).state, e),
        ensures
            final(self).wf(),
            final(self).baud == old(self).baud,
            final(self).state == spec_handshake_step(old(self).state, e),
    {
        let next: HandshakeState = match (self.state, e) {
            (HandshakeState::Opening, HandshakeEvent::OpenResult { ok }) => if ok {
                HandshakeState::Purging
            } else {
                HandshakeState::Failed(ConnectFailure::TransportOpen)
            },
            (HandshakeState::Purging, HandshakeEvent::Purged) => HandshakeState::SendingConnect,
            (HandshakeState::SendingConnect, HandshakeEvent::Sent) => HandshakeState::AwaitingReply,
            (HandshakeState::AwaitingReply, HandshakeEvent::Reply { reply }) => match reply {
                Option::None => HandshakeState::Failed(ConnectFailure::NoResponse),
                Option::Some(bytes) => if reply_is_comok(&bytes) {
                    HandshakeState::Established
                } else {
                    HandshakeState::Failed(ConnectFailure::UnexpectedResponse)
                },
            },
            _ => vstd::pervasive::unreached(),
        };
        self.state = next;
    }

    /// Whether the attempt has reached its outcome.
    pub fn is_done(&self) -> (r: bool)
        ensures
            r == self.spec_done(),
    {
        match self.state {
            HandshakeState::Established => true,
            HandshakeState::Failed(_) => true,
            _ => false,
        }
    }

    /// The outcome: the baud rate the link was established at, the failure
    /// kind, or nothing while the attempt is still under way.
    pub fn outcome(&self) -> (r: Option<Result<u32, ConnectFailure>>)
        ensures
            match self.state {
                HandshakeState::Established => r == Some(Ok::<u32, ConnectFailure>(self.baud)),
                HandshakeState::Failed(f) => r == Some(Err::<u32, ConnectFailure>(f)),
                _ => r is None,
            },
    {
        match self.state {
            HandshakeState::Established => Some(Ok(self.baud)),
            HandshakeState::Failed(f) => Some(Err(f)),
            _ => None,
        }
    }
}

/// A handshake answered with `comok` within the timeout establishes the
/// link (at the probed baud rate, which `step` never changes); any other
/// answer fails it with `UnexpectedResponse`, and no answer fails it with
/// `NoResponse`.
pub proof fn lemma_handshake_reply_decides(reply: Option<Vec<u8>>)
    ensures
        ({
            let s0 = HandshakeState::Opening;
            let s1 = spec_handshake_step(s0, HandshakeEvent::OpenResult { ok: true });
            let s2 = spec_handshake_step(s1, HandshakeEvent::Purged);
            let s3 = spec_handshake_step(s2, HandshakeEvent::Sent);
            let s4 = spec_handshake_step(s3, HandshakeEvent::Reply { reply });
            match reply {
                Option::Some(bytes) => if bytes@ == spec_comok() {
                    s4 is Established
                } else {
                    s4 == HandshakeState::Failed(ConnectFailure::UnexpectedResponse)
                },
                Option::None => s4 == HandshakeState::Failed(ConnectFailure::NoResponse),
            }
        }),
{
}

} // verus!
