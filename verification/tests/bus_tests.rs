use liveserve::bus::ReloadBus;
use liveserve::session::{session_step, SessionAction, SessionEvent, SessionState};

#[test]
fn delivers_every_event_in_order_after_drain() {
    let mut bus = ReloadBus::new();
    let s = bus.attach();
    bus.drain(s);
    bus.publish();
    bus.publish();
    bus.publish();
    assert_eq!(bus.poll(s), Some(0));
    assert_eq!(bus.poll(s), Some(1));
    assert_eq!(bus.poll(s), Some(2));
    assert_eq!(bus.poll(s), None);
}

#[test]
fn events_before_attach_are_invisible() {
    let mut bus = ReloadBus::new();
    bus.publish();
    bus.publish();
    let s = bus.attach();
    bus.drain(s);
    assert_eq!(bus.poll(s), None);
    bus.publish();
    assert_eq!(bus.poll(s), Some(2));
    assert_eq!(bus.poll(s), None);
}

#[test]
fn drain_discards_pending_notifications() {
    let mut bus = ReloadBus::new();
    let s = bus.attach();
    bus.publish();
    bus.publish();
    bus.drain(s);
    assert_eq!(bus.poll(s), None);
}

#[test]
fn fanout_is_independent_of_slow_consumers() {
    let mut bus = ReloadBus::new();
    let a = bus.attach();
    let b = bus.attach();
    bus.drain(a);
    bus.drain(b);
    bus.publish();
    assert_eq!(bus.poll(a), Some(0));
    bus.publish();
    assert_eq!(bus.poll(a), Some(1));
    assert_eq!(bus.poll(a), None);
    // The slow session still holds everything published since its drain.
    assert_eq!(bus.poll(b), Some(0));
    assert_eq!(bus.poll(b), Some(1));
    assert_eq!(bus.poll(b), None);
}

#[test]
fn detach_leaves_other_sessions_untouched() {
    let mut bus = ReloadBus::new();
    let a = bus.attach();
    let b = bus.attach();
    bus.publish();
    bus.detach(a);
    assert!(!bus.is_attached(a));
    assert!(bus.is_attached(b));
    assert_eq!(bus.poll(b), Some(0));
    bus.publish();
    assert_eq!(bus.poll(b), Some(1));
}

#[test]
fn fresh_bus_has_no_sessions() {
    let bus = ReloadBus::new();
    assert!(!bus.is_attached(0));
}

#[test]
fn scenario_one_trigger_two_attached_sessions() {
    // One trigger event published while two live sessions are attached:
    // each session observes exactly one notification and answers it with
    // exactly one reload push to its own peer.
    let mut bus = ReloadBus::new();
    let a = bus.attach();
    let b = bus.attach();
    bus.drain(a);
    bus.drain(b);
    bus.publish();
    for s in [a, b] {
        assert_eq!(bus.poll(s), Some(0));
        let (state, action) = session_step(SessionState::Active, SessionEvent::Notification);
        assert_eq!(state, SessionState::Active);
        assert_eq!(action, SessionAction::PushReload);
        assert_eq!(bus.poll(s), None);
    }
}
