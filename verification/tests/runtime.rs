use jslower::shim::{
    ready_state_code, FrameQueue, HostRequest, KeyValueStore, ReadyState, RequestEvent,
    TimerSlot, TimerState, TimerTable,
};

fn s(t: &str) -> String {
    t.to_string()
}

#[test]
fn cancelling_a_one_shot_twice_is_a_silent_no_op() {
    let mut timers = TimerTable::new();
    let h = timers.schedule_once();
    timers.cancel(h);
    timers.cancel(h);
    assert!(matches!(timers.slots[h].state, TimerState::Cancelled));
    assert!(!timers.fire(h));
}

#[test]
fn cancelling_a_fired_or_unknown_handle_is_harmless() {
    let mut timers = TimerTable::new();
    let h = timers.schedule_once();
    assert!(timers.fire(h));
    assert!(!timers.fire(h));
    timers.cancel(h);
    timers.cancel(99);
    assert!(matches!(timers.slots[h].state, TimerState::Cancelled));
}

#[test]
fn repeating_timers_fire_until_cancelled() {
    let mut timers = TimerTable::new();
    let h = timers.schedule_repeating();
    assert!(timers.fire(h));
    assert!(timers.fire(h));
    timers.cancel(h);
    assert!(!timers.fire(h));
    let slot: TimerSlot = timers.slots[h];
    assert!(slot.repeating);
}

#[test]
fn storage_overwrites_and_reports_absence() {
    let mut store = KeyValueStore::new();
    assert!(store.get(&s("key")).is_none());
    store.set_value(s("key"), s("value"));
    assert_eq!(store.get(&s("key")), Some(s("value")));
    store.set_value(s("key"), s("newer"));
    assert_eq!(store.get(&s("key")), Some(s("newer")));
    store.set_value(s("other"), s("thing"));
    assert_eq!(store.get(&s("key")), Some(s("newer")));
    assert_eq!(store.get(&s("other")), Some(s("thing")));
    assert!(store.get(&s("missing")).is_none());
}

#[test]
fn request_walks_its_states_and_keeps_listener_order() {
    let mut req = HostRequest::new();
    assert_eq!(ready_state_code(&req.state), 0);
    req.add_listener(RequestEvent::Load, 7);
    req.add_listener(RequestEvent::ReadyStateChange, 8);
    req.add_listener(RequestEvent::ReadyStateChange, 9);
    let on_open = req.open_request();
    assert_eq!(on_open, vec![8, 9]);
    assert_eq!(ready_state_code(&req.state), 1);
    assert_eq!(req.advance(), vec![8, 9]);
    assert_eq!(ready_state_code(&req.state), 2);
    assert_eq!(req.advance(), vec![8, 9]);
    assert_eq!(ready_state_code(&req.state), 3);
    assert_eq!(req.advance(), vec![7, 8, 9]);
    assert!(matches!(req.state, ReadyState::Done));
}

#[test]
fn a_listener_added_after_completion_is_never_invoked() {
    let mut req = HostRequest::new();
    let _ = req.open_request();
    let _ = req.advance();
    let _ = req.advance();
    let _ = req.advance();
    assert!(matches!(req.state, ReadyState::Done));
    req.add_listener(RequestEvent::Load, 42);
    req.add_listener(RequestEvent::ReadyStateChange, 43);
    assert_eq!(req.advance(), Vec::<usize>::new());
    assert!(matches!(req.state, ReadyState::Done));
}

#[test]
fn a_failing_request_runs_its_failure_listeners() {
    let mut req = HostRequest::new();
    req.add_listener(RequestEvent::Failure, 1);
    req.add_listener(RequestEvent::Load, 2);
    req.add_listener(RequestEvent::ReadyStateChange, 3);
    let _ = req.open_request();
    assert_eq!(req.fail(), vec![1, 3]);
    assert!(matches!(req.state, ReadyState::Done));
}

#[test]
fn frames_run_once_and_reschedules_land_in_the_next_frame() {
    let mut frames = FrameQueue::new();
    frames.request_frame(1);
    frames.request_frame(2);
    let first = frames.run_frame();
    assert_eq!(first, vec![1, 2]);
    for cb in &first {
        if *cb == 1 {
            frames.request_frame(10);
        }
    }
    let second = frames.run_frame();
    assert_eq!(second, vec![10]);
    assert_eq!(frames.run_frame(), Vec::<usize>::new());
}
