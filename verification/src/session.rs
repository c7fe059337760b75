//! Per-connection session: the state machine of one accepted subscriber
//! connection, and the registry's accept path.
//!
//! A session opens by subscribing to the shared broadcast channel. Two
//! concurrent activities then run for as long as it stays open: an outbound
//! relay that receives from the channel and writes each message to the
//! socket, and an inbound watch that reads from the socket and looks for a
//! close frame, a read error, or end of stream. Whichever of the two first
//! observes a reason to stop moves the session to `Closing`, which cancels
//! the other activity and releases the subscription; teardown then lands in
//! the terminal `Closed` state. Close signals are idempotent: once a session
//! is past `Open`, further signals change nothing and release nothing twice.
use vstd::prelude::*;

use crate::channel::{BroadcastChannel, Cursor, RecvOutcome};

verus! {

/// Lifecycle of one session. No reopening: `Closed` is terminal.
#[derive(PartialEq, Eq, Structural)]
pub enum SessionState {
    Open,
    Closing,
    Closed,
}

/// What one of the session's two activities observed.
#[derive(PartialEq, Eq, Structural)]
pub enum SessionEvent {
    /// The outbound relay was handed a message to write to the socket.
    ChannelMessage,
    /// The outbound relay was told it lagged; it should receive again.
    ChannelLagged,
    /// A write to the socket succeeded.
    WriteOk,
    /// A write to the socket failed: the client is gone.
    WriteFailed,
    /// The inbound watch read a close frame from the client.
    InboundClose,
    /// The inbound watch hit a read error.
    InboundError,
    /// The inbound watch reached end of stream.
    InboundEof,
    /// The inbound watch read ordinary client data, which the relay ignores.
    InboundData,
}

/// What the caller must do after one step of the state machine.
#[derive(PartialEq, Eq, Structural)]
pub enum SessionAction {
    /// Write the received message to the socket.
    RelaySocketWrite,
    /// Keep both activities running; nothing to do.
    Continue,
    /// Cancel the other activity and release the subscription.
    CancelAndRelease,
    /// Teardown already under way or done; do nothing.
    NoAction,
}

/// One step of the session state machine: the next state and what the
/// caller must do.
pub open spec fn session_step_spec(state: SessionState, event: SessionEvent) -> (SessionState,
    SessionAction,
) {
    match state {
        SessionState::Open => match event {
            SessionEvent::ChannelMessage => (SessionState::Open, SessionAction::RelaySocketWrite),
            SessionEvent::ChannelLagged => (SessionState::Open, SessionAction::Continue),
            SessionEvent::WriteOk => (SessionState::Open, SessionAction::Continue),
            SessionEvent::WriteFailed => (SessionState::Closing, SessionAction::CancelAndRelease),
            SessionEvent::InboundClose => (SessionState::Closing, SessionAction::CancelAndRelease),
            SessionEvent::InboundError => (SessionState::Closing, SessionAction::CancelAndRelease),
            SessionEvent::InboundEof => (SessionState::Closing, SessionAction::CancelAndRelease),
            SessionEvent::InboundData => (SessionState::Open, SessionAction::Continue),
        },
        SessionState::Closing => (SessionState::Closed, SessionAction::NoAction),
        SessionState::Closed => (SessionState::Closed, SessionAction::NoAction),
    }
}

/// Advance the session state machine by one observed event.
pub fn session_step(state: SessionState, event: SessionEvent) -> (r: (SessionState, SessionAction))
    ensures
        r == session_step_spec(state, event),
{
    match state {
        SessionState::Open => match event {
            SessionEvent::ChannelMessage => (SessionState::Open, SessionAction::RelaySocketWrite),
            SessionEvent::ChannelLagged => (SessionState::Open, SessionAction::Continue),
            SessionEvent::WriteOk => (SessionState::Open, SessionAction::Continue),
            SessionEvent::WriteFailed => (SessionState::Closing, SessionAction::CancelAndRelease),
            SessionEvent::InboundClose => (SessionState::Closing, SessionAction::CancelAndRelease),
            SessionEvent::InboundError => (SessionState::Closing, SessionAction::CancelAndRelease),
            SessionEvent::InboundEof => (SessionState::Closing, SessionAction::CancelAndRelease),
            SessionEvent::InboundData => (SessionState::Open, SessionAction::Continue),
        },
        SessionState::Closing => (SessionState::Closed, SessionAction::NoAction),
        SessionState::Closed => (SessionState::Closed, SessionAction::NoAction),
    }
}

/// Law: a close frame, a read error, end of stream, or a failed write
/// observed in the `Open` state releases the subscription in that very step
/// — the action is `CancelAndRelease`, with no intervening state — and once
/// the session has left `Open`, every further signal is a no-op: nothing is
/// released twice and the state can only move to, and stay at, `Closed`.
pub proof fn lemma_close_releases_once(event: SessionEvent)
    ensures
        session_step_spec(SessionState::Open, SessionEvent::InboundClose)
            == (SessionState::Closing, SessionAction::CancelAndRelease),
        session_step_spec(SessionState::Open, SessionEvent::InboundError)
            == (SessionState::Closing, SessionAction::CancelAndRelease),
        session_step_spec(SessionState::Open, SessionEvent::InboundEof)
            == (SessionState::Closing, SessionAction::CancelAndRelease),
        session_step_spec(SessionState::Open, SessionEvent::WriteFailed)
            == (SessionState::Closing, SessionAction::CancelAndRelease),
        session_step_spec(SessionState::Closing, event)
            == (SessionState::Closed, SessionAction::NoAction),
        session_step_spec(SessionState::Closed, event)
            == (SessionState::Closed, SessionAction::NoAction),
{
}

/// One accepted subscriber connection: its lifecycle state, its receive
/// cursor into the broadcast channel, and the peer's address, kept for
/// diagnostics only.
pub struct Session {
    state: SessionState,
    cursor: Cursor,
    peer_addr: String,
}

impl Session {
    /// The session's lifecycle state.
    pub closed spec fn state(&self) -> SessionState {
        self.state
    }

    /// The position of the session's receive cursor.
    pub closed spec fn cursor_pos(&self) -> int {
        self.cursor.pos()
    }

    /// Whether the session is still open, as a caller can read it.
    pub fn is_open(&self) -> (r: bool)
        ensures
            r == (self.state() == SessionState::Open),
    {
        self.state == SessionState::Open
    }

    /// The peer's address as the session records it.
    pub closed spec fn peer_view(&self) -> Seq<char> {
        self.peer_addr@
    }

    /// The peer's address, kept for diagnostics.
    pub fn peer(&self) -> (r: &String)
        ensures
            r@ == self.peer_view(),
    {
        &self.peer_addr
    }

    /// The registry's accept path: on each accepted connection, subscribe to
    /// the shared channel and open one independent session around the new
    /// cursor. The cursor starts at "now": no message published before this
    /// call will ever reach the session.
    pub fn accept(channel: &mut BroadcastChannel, peer_addr: String) -> (s: Session)
        requires
            old(channel).well_formed(),
            old(channel).subscriber_count() < u64::MAX,
        ensures
            final(channel).well_formed(),
            final(channel).published() == old(channel).published(),
            final(channel).subscriber_count() == old(channel).subscriber_count() + 1,
            s.state() == SessionState::Open,
            s.cursor_pos() == old(channel).published().len(),
    {
        let cursor = channel.subscribe();
        Session { state: SessionState::Open, cursor, peer_addr }
    }

    /// The outbound relay's receive: hand the session the next message its
    /// cursor is due, a lag report, or nothing new yet.
    pub fn next_outbound(&mut self, channel: &BroadcastChannel) -> (r: RecvOutcome)
        requires
            channel.well_formed(),
            old(self).state() == SessionState::Open,
            0 <= old(self).cursor_pos() <= channel.published().len(),
        ensures
            final(self).state() == SessionState::Open,
            final(self).cursor_pos() == crate::channel::next_pos(
                channel.published().len() as int,
                old(self).cursor_pos(),
            ),
            old(self).cursor_pos() == channel.published().len() ==> r is Pending,
            old(self).cursor_pos() + 1 == channel.published().len() ==> (r matches
                RecvOutcome::Message(m) && m@ == channel.published()[old(self).cursor_pos()]),
            old(self).cursor_pos() + 1 < channel.published().len() ==> (r matches
                RecvOutcome::Lagged(k) && k == channel.published().len() - 1 - old(
                self,
            ).cursor_pos()),
            (r matches RecvOutcome::Message(m) ==> crate::channel::recv_view(
                channel.published(),
                old(self).cursor_pos(),
            ) == Some(m@)),
    {
        channel.recv(&mut self.cursor)
    }

    /// Tear the session down: release its subscription and land in the
    /// terminal `Closed` state. Idempotent — closing an already-closed
    /// session releases nothing and changes nothing.
    pub fn close(&mut self, channel: &mut BroadcastChannel)
        requires
            old(channel).well_formed(),
            old(self).state() == SessionState::Open ==> old(channel).subscriber_count() > 0,
        ensures
            final(channel).well_formed(),
            final(channel).published() == old(channel).published(),
            old(self).state() == SessionState::Open ==> final(channel).subscriber_count() == old(
                channel,
            ).subscriber_count() - 1,
            old(self).state() != SessionState::Open ==> final(channel).subscriber_count() == old(
                channel,
            ).subscriber_count(),
            final(self).state() == SessionState::Closed,
    {
        if self.state == SessionState::Open {
            self.state = SessionState::Closing;
            channel.unsubscribe(&self.cursor);
        }
        self.state = SessionState::Closed;
    }
}

} // verus!
