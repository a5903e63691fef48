//! The per-connection live-update session as a state machine.
//!
//! A session attaches to the reload bus, drains whatever was pending before
//! it was ready to act, and then races two event sources: a notification
//! from the bus, answered by pushing a reload message to the peer, and any
//! activity from the peer — a message or a close — answered by terminating.
//! The loop around the race lives with the I/O; what it must do with each
//! observed event is the verified transition function here.

use vstd::prelude::*;

verus! {

/// Where a session stands. `Draining` discards notifications pending from
/// before the session was ready; `Active` delivers; `Closed` is terminal.
#[derive(Clone, Copy, Debug, PartialEq, Eq, Structural)]
pub enum SessionState {
    Draining,
    Active,
    Closed,
}

/// What the session loop observed: the drain of pre-attach notifications
/// finished; a notification arrived; a pushed reload message went out, or
/// failed; the peer sent something or closed; the bus was torn down.
#[derive(Clone, Copy, Debug, PartialEq, Eq, Structural)]
pub enum SessionEvent {
    DrainComplete,
    Notification,
    PushOk,
    PushFailed,
    PeerActivity,
    BusClosed,
}

/// What the loop must do next: keep waiting on both event sources, discard
/// a pending notification, push a reload message to the peer, or detach
/// from the bus and stop.
#[derive(Clone, Copy, Debug, PartialEq, Eq, Structural)]
pub enum SessionAction {
    Wait,
    Discard,
    PushReload,
    Detach,
}

/// The transition relation of a session. Anything from the peer means
/// "stop", a failed push or a torn-down bus likewise; a notification while
/// draining is discarded, one while active is pushed to the peer. An event
/// that cannot arise in a state leaves the state as it is.
pub open spec fn session_step_spec(s: SessionState, e: SessionEvent) -> (
    SessionState,
    SessionAction,
) {
    match s {
        SessionState::Draining => match e {
            SessionEvent::DrainComplete => (SessionState::Active, SessionAction::Wait),
            SessionEvent::Notification => (SessionState::Draining, SessionAction::Discard),
            SessionEvent::PeerActivity => (SessionState::Closed, SessionAction::Detach),
            SessionEvent::BusClosed => (SessionState::Closed, SessionAction::Detach),
            _ => (SessionState::Draining, SessionAction::Wait),
        },
        SessionState::Active => match e {
            SessionEvent::Notification => (SessionState::Active, SessionAction::PushReload),
            SessionEvent::PushOk => (SessionState::Active, SessionAction::Wait),
            SessionEvent::PushFailed => (SessionState::Closed, SessionAction::Detach),
            SessionEvent::PeerActivity => (SessionState::Closed, SessionAction::Detach),
            SessionEvent::BusClosed => (SessionState::Closed, SessionAction::Detach),
            _ => (SessionState::Active, SessionAction::Wait),
        },
        SessionState::Closed => (SessionState::Closed, SessionAction::Wait),
    }
}

/// Advances a session by one observed event and says what the loop must do.
pub fn session_step(s: SessionState, e: SessionEvent) -> (r: (SessionState, SessionAction))
    ensures
        r == session_step_spec(s, e),
{
    match s {
        SessionState::Draining => match e {
            SessionEvent::DrainComplete => (SessionState::Active, SessionAction::Wait),
            SessionEvent::Notification => (SessionState::Draining, SessionAction::Discard),
            SessionEvent::PeerActivity => (SessionState::Closed, SessionAction::Detach),
            SessionEvent::BusClosed => (SessionState::Closed, SessionAction::Detach),
            _ => (SessionState::Draining, SessionAction::Wait),
        },
        SessionState::Active => match e {
            SessionEvent::Notification => (SessionState::Active, SessionAction::PushReload),
            SessionEvent::PushOk => (SessionState::Active, SessionAction::Wait),
            SessionEvent::PushFailed => (SessionState::Closed, SessionAction::Detach),
            SessionEvent::PeerActivity => (SessionState::Closed, SessionAction::Detach),
            SessionEvent::BusClosed => (SessionState::Closed, SessionAction::Detach),
            _ => (SessionState::Active, SessionAction::Wait),
        },
        SessionState::Closed => (SessionState::Closed, SessionAction::Wait),
    }
}

/// A closed session stays closed and takes no further action: once the
/// peer disconnects or a push fails, nothing can revive the session.
pub proof fn lemma_closed_is_terminal(e: SessionEvent)
    ensures
        session_step_spec(SessionState::Closed, e).0 is Closed,
        !(session_step_spec(SessionState::Closed, e).1 is PushReload),
{
}

/// A session detaches exactly when it closes: the transition that reaches
/// `Closed` from a live state is the one whose action is `Detach`, so a
/// terminating session always releases its bus attachment.
pub proof fn lemma_detach_on_close(s: SessionState, e: SessionEvent)
    requires
        !(s is Closed),
    ensures
        (session_step_spec(s, e).0 is Closed) <==> (session_step_spec(s, e).1 is Detach),
{
}

} // verus!
