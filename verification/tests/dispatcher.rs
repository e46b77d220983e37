use millkrs::bot::{DispatchAction, DispatchEvent, DispatchPhase, Dispatcher};

#[test]
fn burst_never_exceeds_capacity() {
    let capacity = 3;
    let mut d = Dispatcher::new(capacity);
    let mut seed: u32 = 12345;
    let mut running = 0usize;
    let mut started = 0usize;
    let mut finished = 0usize;
    let mut held = false;
    let mut offered = 0usize;
    while offered < 500 || running > 0 || held {
        seed = seed.wrapping_mul(1103515245).wrapping_add(12345);
        let finish_one = running > 0 && (held || offered >= 500 || (seed >> 16) % 3 == 0);
        let action = if finish_one {
            running -= 1;
            finished += 1;
            d.step(DispatchEvent::HandlerDone { failed: (seed >> 8) % 2 == 0 })
        } else {
            offered += 1;
            d.step(DispatchEvent::Received)
        };
        match action {
            DispatchAction::Spawn => {
                running += 1;
                started += 1;
                held = false;
            }
            DispatchAction::Hold => held = true,
            DispatchAction::Continue => {}
            other => panic!("unexpected action {:?}", other),
        }
        assert!(d.in_flight() <= capacity);
        assert_eq!(d.in_flight(), running);
        assert!(running <= capacity);
    }
    assert_eq!(started, 500);
    assert_eq!(finished, 500);
    assert_eq!(d.in_flight(), 0);
}

#[test]
fn four_waves_are_needed_for_ten_events() {
    // With three slots, ten handlers that each take one tick need four ticks.
    let mut d = Dispatcher::new(3);
    let mut queued = 10;
    let mut ticks = 0;
    let mut held = false;
    loop {
        while queued > 0 && !held {
            match d.step(DispatchEvent::Received) {
                DispatchAction::Spawn => queued -= 1,
                DispatchAction::Hold => {
                    held = true;
                    queued -= 1;
                }
                other => panic!("unexpected action {:?}", other),
            }
        }
        if d.in_flight() == 0 {
            break;
        }
        ticks += 1;
        let mut ending = d.in_flight();
        while ending > 0 {
            let action = d.step(DispatchEvent::HandlerDone { failed: false });
            ending -= 1;
            if action == DispatchAction::Spawn {
                held = false;
            }
        }
    }
    assert_eq!(ticks, 4);
}

#[test]
fn shutdown_waits_for_handlers_in_flight() {
    let mut d = Dispatcher::new(2);
    assert_eq!(d.step(DispatchEvent::Received), DispatchAction::Spawn);
    assert_eq!(d.step(DispatchEvent::Received), DispatchAction::Spawn);
    assert_eq!(d.step(DispatchEvent::Shutdown), DispatchAction::Drain);
    assert_eq!(d.phase(), DispatchPhase::Draining);
    assert!(!d.may_pull());
    assert!(!d.is_finished());
    // Nothing is admitted any more.
    assert_eq!(d.step(DispatchEvent::Received), DispatchAction::Ignored);
    assert_eq!(d.in_flight(), 2);
    assert_eq!(d.step(DispatchEvent::HandlerDone { failed: true }), DispatchAction::Drain);
    assert!(!d.is_finished());
    assert_eq!(d.step(DispatchEvent::HandlerDone { failed: false }), DispatchAction::Return);
    assert!(d.is_finished());
    assert_eq!(d.in_flight(), 0);
    assert_eq!(d.step(DispatchEvent::Received), DispatchAction::Ignored);
}

#[test]
fn closed_queue_with_nothing_in_flight_returns_at_once() {
    let mut d = Dispatcher::new(4);
    assert_eq!(d.capacity(), 4);
    assert_eq!(d.step(DispatchEvent::Closed), DispatchAction::Return);
    assert!(d.is_finished());
}

#[test]
fn held_event_survives_shutdown() {
    let mut d = Dispatcher::new(1);
    assert_eq!(d.step(DispatchEvent::Received), DispatchAction::Spawn);
    assert_eq!(d.step(DispatchEvent::Received), DispatchAction::Hold);
    assert_eq!(d.phase(), DispatchPhase::Blocked);
    assert_eq!(d.step(DispatchEvent::Shutdown), DispatchAction::Hold);
    // The slot that comes free goes to the held event; then the loop drains.
    assert_eq!(d.step(DispatchEvent::HandlerDone { failed: false }), DispatchAction::Spawn);
    assert_eq!(d.phase(), DispatchPhase::Draining);
    assert_eq!(d.in_flight(), 1);
    assert_eq!(d.step(DispatchEvent::HandlerDone { failed: false }), DispatchAction::Return);
}

#[test]
fn refused_slot_drops_the_held_event() {
    let mut d = Dispatcher::new(1);
    assert_eq!(d.step(DispatchEvent::Received), DispatchAction::Spawn);
    assert_eq!(d.step(DispatchEvent::Received), DispatchAction::Hold);
    assert_eq!(d.step(DispatchEvent::SlotRefused), DispatchAction::DropHeld);
    assert_eq!(d.phase(), DispatchPhase::Accepting);
    assert_eq!(d.in_flight(), 1);
}

#[test]
fn failing_handler_frees_its_slot() {
    let mut a = Dispatcher::new(2);
    let mut b = Dispatcher::new(2);
    a.step(DispatchEvent::Received);
    b.step(DispatchEvent::Received);
    assert_eq!(
        a.step(DispatchEvent::HandlerDone { failed: true }),
        b.step(DispatchEvent::HandlerDone { failed: false })
    );
    assert_eq!(a.in_flight(), b.in_flight());
    assert_eq!(a.phase(), b.phase());
}

#[test]
fn no_capacity_admits_nothing() {
    let mut d = Dispatcher::new(0);
    assert_eq!(d.step(DispatchEvent::Received), DispatchAction::Hold);
    assert_eq!(d.step(DispatchEvent::HandlerDone { failed: false }), DispatchAction::Ignored);
    assert_eq!(d.in_flight(), 0);
    assert_eq!(d.step(DispatchEvent::Shutdown), DispatchAction::Hold);
    assert_eq!(d.step(DispatchEvent::SlotRefused), DispatchAction::DropHeld);
    assert!(d.is_finished());
}
