//! The decisions of the auto-reconnecting activity feed.
//!
//! A background task owns a [`FeedSession`], performs the I/O that each
//! [`FeedAction`] asks for and reports what happened as a [`FeedEvent`]. The
//! session walks `Disconnected -> Connecting -> Handshaking -> Streaming`
//! and back to `Disconnected` on any transport failure, and ends for good in
//! `Stopped` once the consumer of the feed has gone away.
//!
//! An undecodable frame is reported and the session goes on reading; only
//! `MAX_CONSECUTIVE_DECODE_FAILURES` undecodable frames in a row, which
//! suggest the connection is out of step with the server, make it reconnect.

use vstd::prelude::*;

use crate::error::Error;
use crate::json::json_string;
use crate::websockets::handshake::{subscribe_frame, subscribe_frame_text};

verus! {

/// Undecodable frames in a row after which the feed reconnects.
pub const MAX_CONSECUTIVE_DECODE_FAILURES: u32 = 3;

/// Milliseconds to wait before connecting again after a disconnect.
pub const RECONNECT_DELAY_MS: u64 = 1000;

/// Where the feed stands.
#[derive(Debug, Clone, Copy, PartialEq, Eq, Structural)]
pub enum Phase {
    Disconnected,
    Connecting,
    Handshaking,
    Streaming,
    Stopped,
}

/// What happened since the last action.
#[derive(Debug, Clone)]
pub enum FeedEvent {
    /// Time to connect: at the start, or once the reconnect delay is over.
    Start,
    /// The socket is open.
    Connected,
    /// The socket could not be opened.
    ConnectFailed(Error),
    /// The token cache handed out this bearer value.
    TokenReady(String),
    /// No bearer value could be had.
    TokenFailed(Error),
    /// The subscribe frame was written.
    SubscribeSent,
    /// Writing to the socket failed.
    SendFailed(Error),
    /// A text frame was decoded into an activity message.
    FrameDecoded,
    /// A text frame could not be decoded.
    FrameRejected(Error),
    /// The server sent a ping.
    PingReceived,
    /// The server closed the connection.
    CloseReceived,
    /// Reading from the socket failed.
    ReadFailed(Error),
    /// The consumer of the feed went away.
    ConsumerGone,
}

/// What the task does next.
#[derive(Debug, Clone)]
pub enum FeedAction {
    /// Open a socket to the feed endpoint.
    OpenSocket,
    /// Obtain a bearer value from the token cache.
    FetchToken,
    /// Write this text frame.
    SendText(String),
    /// Pass the decoded message on to the consumer.
    Forward,
    /// Pass this decoding error on to the consumer and keep reading.
    ReportDecodeError(Error),
    /// Answer the ping.
    Pong,
    /// Drop the socket, wait this many milliseconds, then report `Start`.
    Reconnect(u64),
    /// Drop the socket and end the task.
    Shutdown,
    /// Nothing to do: read the next event.
    Continue,
}

/// The feed of one account.
#[derive(Debug, Clone)]
pub struct FeedSession {
    pub phase: Phase,
    pub account_id: String,
    /// Undecodable frames received in a row on the current connection.
    pub decode_failures: u32,
}

/// The phase after `event` in phase `p`, with `failures` undecodable frames
/// in a row so far.
pub open spec fn next_phase(p: Phase, failures: u32, event: FeedEvent) -> Phase {
    match (p, event) {
        (Phase::Stopped, _) => Phase::Stopped,
        (_, FeedEvent::ConsumerGone) => Phase::Stopped,
        (Phase::Disconnected, FeedEvent::Start) => Phase::Connecting,
        (Phase::Connecting, FeedEvent::Connected) => Phase::Handshaking,
        (Phase::Connecting, FeedEvent::ConnectFailed(_)) => Phase::Disconnected,
        (Phase::Handshaking, FeedEvent::TokenFailed(_)) => Phase::Disconnected,
        (Phase::Handshaking, FeedEvent::SendFailed(_)) => Phase::Disconnected,
        (Phase::Handshaking, FeedEvent::SubscribeSent) => Phase::Streaming,
        (Phase::Streaming, FeedEvent::FrameRejected(_)) => if failures + 1 >= MAX_CONSECUTIVE_DECODE_FAILURES {
            Phase::Disconnected
        } else {
            Phase::Streaming
        },
        (Phase::Streaming, FeedEvent::CloseReceived) => Phase::Disconnected,
        (Phase::Streaming, FeedEvent::ReadFailed(_)) => Phase::Disconnected,
        (Phase::Streaming, FeedEvent::SendFailed(_)) => Phase::Disconnected,
        _ => p,
    }
}

/// The count of undecodable frames in a row after `event`.
pub open spec fn next_failures(p: Phase, failures: u32, event: FeedEvent) -> u32 {
    match (p, event) {
        (Phase::Streaming, FeedEvent::FrameRejected(_)) => if failures + 1 >= MAX_CONSECUTIVE_DECODE_FAILURES {
            0
        } else {
            (failures + 1) as u32
        },
        (Phase::Streaming, FeedEvent::FrameDecoded) => 0,
        _ => if next_phase(p, failures, event) == p { failures } else { 0 },
    }
}

/// Whether `a` is the action owed for `event` in phase `p` with `failures`
/// undecodable frames in a row, for the feed of `account`.
pub open spec fn action_for(p: Phase, failures: u32, account: Seq<char>, event: FeedEvent, a: FeedAction) -> bool {
    match (p, event) {
        (Phase::Stopped, _) => a is Shutdown,
        (_, FeedEvent::ConsumerGone) => a is Shutdown,
        (Phase::Disconnected, FeedEvent::Start) => a is OpenSocket,
        (Phase::Connecting, FeedEvent::Connected) => a is FetchToken,
        (Phase::Handshaking, FeedEvent::TokenReady(t)) => match a {
            FeedAction::SendText(f) => f@ == subscribe_frame_text(json_string(t@), json_string(account)),
            _ => false,
        },
        (Phase::Streaming, FeedEvent::FrameDecoded) => a is Forward,
        (Phase::Streaming, FeedEvent::FrameRejected(e)) => if failures + 1 >= MAX_CONSECUTIVE_DECODE_FAILURES {
            a == FeedAction::Reconnect(RECONNECT_DELAY_MS)
        } else {
            a == FeedAction::ReportDecodeError(e)
        },
        (Phase::Streaming, FeedEvent::PingReceived) => a is Pong,
        _ => if next_phase(p, failures, event) is Disconnected && !(p is Disconnected) {
            a == FeedAction::Reconnect(RECONNECT_DELAY_MS)
        } else {
            a is Continue
        },
    }
}

impl FeedSession {
    /// A feed of `account_id` that has not connected yet.
    pub fn new(account_id: String) -> (r: FeedSession)
        ensures
            r.phase == Phase::Disconnected,
            r.account_id == account_id,
            r.decode_failures == 0,
    {
        FeedSession { phase: Phase::Disconnected, account_id, decode_failures: 0 }
    }

    /// Takes in what happened and says what to do next.
    pub fn step(&mut self, event: FeedEvent) -> (r: FeedAction)
        ensures
            final(self).phase == next_phase(old(self).phase, old(self).decode_failures, event),
            final(self).decode_failures == next_failures(old(self).phase, old(self).decode_failures, event),
            final(self).account_id == old(self).account_id,
            action_for(old(self).phase, old(self).decode_failures, old(self).account_id@, event, r),
    {
        let p = self.phase;
        let failures = self.decode_failures;
        match (p, event) {
            (Phase::Stopped, _) => FeedAction::Shutdown,
            (_, FeedEvent::ConsumerGone) => {
                self.phase = Phase::Stopped;
                self.decode_failures = 0;
                FeedAction::Shutdown
            },
            (Phase::Disconnected, FeedEvent::Start) => {
                self.phase = Phase::Connecting;
                self.decode_failures = 0;
                FeedAction::OpenSocket
            },
            (Phase::Connecting, FeedEvent::Connected) => {
                self.phase = Phase::Handshaking;
                self.decode_failures = 0;
                FeedAction::FetchToken
            },
            (Phase::Handshaking, FeedEvent::TokenReady(t)) => {
                let framed = subscribe_frame(t.as_str(), self.account_id.as_str());
                FeedAction::SendText(framed.unwrap())
            },
            (Phase::Handshaking, FeedEvent::SubscribeSent) => {
                self.phase = Phase::Streaming;
                self.decode_failures = 0;
                FeedAction::Continue
            },
            (Phase::Streaming, FeedEvent::FrameDecoded) => {
                self.decode_failures = 0;
                FeedAction::Forward
            },
            (Phase::Streaming, FeedEvent::FrameRejected(e)) => {
                if failures >= MAX_CONSECUTIVE_DECODE_FAILURES - 1 {
                    self.phase = Phase::Disconnected;
                    self.decode_failures = 0;
                    FeedAction::Reconnect(RECONNECT_DELAY_MS)
                } else {
                    self.decode_failures = failures + 1;
                    FeedAction::ReportDecodeError(e)
                }
            },
            (Phase::Streaming, FeedEvent::PingReceived) => FeedAction::Pong,
            (Phase::Connecting, FeedEvent::ConnectFailed(_))
            | (Phase::Handshaking, FeedEvent::TokenFailed(_))
            | (Phase::Handshaking, FeedEvent::SendFailed(_))
            | (Phase::Streaming, FeedEvent::CloseReceived)
            | (Phase::Streaming, FeedEvent::ReadFailed(_))
            | (Phase::Streaming, FeedEvent::SendFailed(_)) => {
                self.phase = Phase::Disconnected;
                self.decode_failures = 0;
                FeedAction::Reconnect(RECONNECT_DELAY_MS)
            },
            _ => FeedAction::Continue,
        }
    }
}

/// The phase reached from phase `p`, with `failures` undecodable frames in a
/// row so far, after the events `events` in order.
pub open spec fn phase_after(p: Phase, failures: u32, events: Seq<FeedEvent>) -> Phase
    decreases events.len(),
{
    if events.len() == 0 {
        p
    } else {
        phase_after(
            next_phase(p, failures, events[0]),
            next_failures(p, failures, events[0]),
            events.drop_first(),
        )
    }
}

/// An undecodable frame on a connection that has not been failing to decode
/// is reported and costs nothing else: the session stays streaming on the same
/// connection, and the next decodable frame is forwarded.
pub proof fn lemma_bad_frame_keeps_connection(account: Seq<char>, failures: u32, e: Error, a: FeedAction, b: FeedAction)
    requires
        failures + 1 < MAX_CONSECUTIVE_DECODE_FAILURES,
    ensures
        next_phase(Phase::Streaming, failures, FeedEvent::FrameRejected(e)) == Phase::Streaming,
        action_for(Phase::Streaming, failures, account, FeedEvent::FrameRejected(e), a) <==> a
            == FeedAction::ReportDecodeError(e),
        next_phase(
            Phase::Streaming,
            next_failures(Phase::Streaming, failures, FeedEvent::FrameRejected(e)),
            FeedEvent::FrameDecoded,
        ) == Phase::Streaming,
        action_for(
            Phase::Streaming,
            next_failures(Phase::Streaming, failures, FeedEvent::FrameRejected(e)),
            account,
            FeedEvent::FrameDecoded,
            b,
        ) <==> b is Forward,
{
}

/// Once the consumer has gone away the task is told to drop its socket and
/// end, and whatever is reported after that, the session never leaves
/// `Stopped` and every answer is `Shutdown`.
pub proof fn lemma_consumer_gone_stops_for_good(
    p: Phase,
    failures: u32,
    account: Seq<char>,
    later: Seq<FeedEvent>,
    event: FeedEvent,
    a: FeedAction,
    b: FeedAction,
)
    ensures
        next_phase(p, failures, FeedEvent::ConsumerGone) == Phase::Stopped,
        action_for(p, failures, account, FeedEvent::ConsumerGone, a) <==> a is Shutdown,
        phase_after(Phase::Stopped, failures, later) == Phase::Stopped,
        action_for(Phase::Stopped, failures, account, event, b) <==> b is Shutdown,
    decreases later.len(),
{
    if later.len() > 0 {
        lemma_consumer_gone_stops_for_good(
            p,
            next_failures(Phase::Stopped, failures, later[0]),
            account,
            later.drop_first(),
            event,
            a,
            b,
        );
    }
}

} // verus!
