use liveserve::session::{session_step, SessionAction, SessionEvent, SessionState};

#[test]
fn drain_complete_activates() {
    assert_eq!(
        session_step(SessionState::Draining, SessionEvent::DrainComplete),
        (SessionState::Active, SessionAction::Wait)
    );
}

#[test]
fn notification_while_draining_is_discarded() {
    assert_eq!(
        session_step(SessionState::Draining, SessionEvent::Notification),
        (SessionState::Draining, SessionAction::Discard)
    );
}

#[test]
fn notification_while_active_pushes_reload() {
    assert_eq!(
        session_step(SessionState::Active, SessionEvent::Notification),
        (SessionState::Active, SessionAction::PushReload)
    );
}

#[test]
fn successful_push_keeps_session_active() {
    assert_eq!(
        session_step(SessionState::Active, SessionEvent::PushOk),
        (SessionState::Active, SessionAction::Wait)
    );
}

#[test]
fn failed_push_closes_and_detaches() {
    assert_eq!(
        session_step(SessionState::Active, SessionEvent::PushFailed),
        (SessionState::Closed, SessionAction::Detach)
    );
}

#[test]
fn peer_activity_closes_and_detaches() {
    assert_eq!(
        session_step(SessionState::Active, SessionEvent::PeerActivity),
        (SessionState::Closed, SessionAction::Detach)
    );
    assert_eq!(
        session_step(SessionState::Draining, SessionEvent::PeerActivity),
        (SessionState::Closed, SessionAction::Detach)
    );
}

#[test]
fn bus_teardown_closes_and_detaches() {
    assert_eq!(
        session_step(SessionState::Active, SessionEvent::BusClosed),
        (SessionState::Closed, SessionAction::Detach)
    );
    assert_eq!(
        session_step(SessionState::Draining, SessionEvent::BusClosed),
        (SessionState::Closed, SessionAction::Detach)
    );
}

#[test]
fn closed_session_stays_closed() {
    for e in [
        SessionEvent::DrainComplete,
        SessionEvent::Notification,
        SessionEvent::PushOk,
        SessionEvent::PushFailed,
        SessionEvent::PeerActivity,
        SessionEvent::BusClosed,
    ] {
        assert_eq!(
            session_step(SessionState::Closed, e),
            (SessionState::Closed, SessionAction::Wait)
        );
    }
}
