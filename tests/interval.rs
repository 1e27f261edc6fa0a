use std::path::PathBuf;

use persist::schedule::{LoopAction, LoopEvent, Phase, PersistLoop};
use persist::{IoKind, JsonPersist, PersistError};

const FIFTY_MS: u64 = 50_000_000;

#[test]
fn zero_interval_persists_once() {
    let mut l = PersistLoop::new(0);
    assert_eq!(l.next_action(), LoopAction::Persist);
    assert_eq!(l.step(LoopEvent::Persisted(Ok(()))), LoopAction::Stop(Ok(())));
    assert_eq!(l.phase(), Phase::Finished);
}

#[test]
fn zero_interval_returns_the_error() {
    let e = PersistError::Io(IoKind::PermissionDenied);
    let mut l = PersistLoop::new(0);
    assert_eq!(l.step(LoopEvent::Persisted(Err(e))), LoopAction::Stop(Err(e)));
}

#[test]
fn interval_loop_repeats_until_failure() {
    let mut l = PersistLoop::new(FIFTY_MS);
    assert_eq!(l.interval(), FIFTY_MS);
    for _ in 0..3 {
        assert_eq!(l.step(LoopEvent::Persisted(Ok(()))), LoopAction::Sleep(FIFTY_MS));
        assert_eq!(l.step(LoopEvent::Woke { cancelled: false }), LoopAction::Persist);
    }
    let e = PersistError::Io(IoKind::Other);
    assert_eq!(l.step(LoopEvent::Persisted(Err(e))), LoopAction::Stop(Err(e)));
    assert_eq!(l.step(LoopEvent::Woke { cancelled: false }), LoopAction::Stop(Err(e)));
    assert_eq!(l.step(LoopEvent::Persisted(Ok(()))), LoopAction::Stop(Err(e)));
}

#[test]
fn interval_loop_stops_when_cancelled() {
    let mut l = PersistLoop::new(FIFTY_MS);
    assert_eq!(l.step(LoopEvent::Persisted(Ok(()))), LoopAction::Sleep(FIFTY_MS));
    assert_eq!(l.step(LoopEvent::Woke { cancelled: true }), LoopAction::Stop(Ok(())));
    assert_eq!(l.phase(), Phase::Finished);
}

#[test]
fn unexpected_event_repeats_pending_action() {
    let mut l = PersistLoop::new(FIFTY_MS);
    assert_eq!(l.step(LoopEvent::Woke { cancelled: true }), LoopAction::Persist);
    assert_eq!(l.phase(), Phase::Persisting);
    assert_eq!(l.step(LoopEvent::Persisted(Ok(()))), LoopAction::Sleep(FIFTY_MS));
    assert_eq!(l.step(LoopEvent::Persisted(Ok(()))), LoopAction::Sleep(FIFTY_MS));
    assert_eq!(l.phase(), Phase::Sleeping);
}

/// The location is written at each persist the loop asks for; in between,
/// the in-memory value changes freely and fresh loads see the last write.
#[test]
fn interval_scenario_fresh_loads_follow_ticks() {
    let path = PathBuf::from("shared.json");
    let mut shared: JsonPersist<String> = JsonPersist::new(String::new(), path.clone());
    let mut location: Option<String> = None;
    let mut l = PersistLoop::new(FIFTY_MS);

    *shared.get_mut() = "X".into();
    assert_eq!(l.next_action(), LoopAction::Persist);
    location = Some(shared.encode().unwrap());
    assert_eq!(l.step(LoopEvent::Persisted(Ok(()))), LoopAction::Sleep(FIFTY_MS));

    let fresh_load = |location: &Option<String>| {
        let mut fresh: JsonPersist<String> = JsonPersist::new(String::new(), path.clone());
        fresh.load_json(location.clone().ok_or(IoKind::NotFound)).unwrap();
        fresh.data
    };
    assert_eq!(fresh_load(&location), "X");

    *shared.get_mut() = "Y".into();
    assert_eq!(fresh_load(&location), "X");

    assert_eq!(l.step(LoopEvent::Woke { cancelled: false }), LoopAction::Persist);
    location = Some(shared.encode().unwrap());
    assert_eq!(l.step(LoopEvent::Persisted(Ok(()))), LoopAction::Sleep(FIFTY_MS));
    assert_eq!(fresh_load(&location), "Y");
}
