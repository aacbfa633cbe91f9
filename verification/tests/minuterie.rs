use mqtt_presence_checker::Fault;
use mqtt_presence_checker::Heartbeat;
use mqtt_presence_checker::Input;
use mqtt_presence_checker::Minuterie;
use mqtt_presence_checker::State;
use mqtt_presence_checker::StateChange;
use std::sync::mpsc;
use std::time::Instant;

/// Replays the engine's schedule deterministically: each heartbeat is
/// processed at its own instant, and between heartbeats the pending
/// deadline (if one is still to come) fires exactly once — after it, the
/// engine blocks until the next heartbeat.
fn assert_timing(timeout: u64, input_offsets: &[u64], expected: &[(u64, State)]) {
    let base = timeout;
    let mut minuterie = Minuterie::new(timeout, base);
    let mut events: Vec<StateChange> = vec![];
    let mut cursor = base;
    for offset in input_offsets {
        let arrival = base + offset;
        let deadline = minuterie.last_instant + minuterie.timeout;
        if deadline > cursor && deadline < arrival {
            if let Some(event) = minuterie.step(Input::Expire, deadline) {
                events.push(event);
            }
            cursor = deadline;
        }
        if let Some(event) = minuterie.step(Input::Beat(Heartbeat { instant: arrival }), arrival) {
            events.push(event);
        }
        cursor = arrival;
    }
    let deadline = minuterie.last_instant + minuterie.timeout;
    if deadline > cursor {
        if let Some(event) = minuterie.step(Input::Expire, deadline) {
            events.push(event);
        }
    }

    assert_eq!(events.len(), expected.len());
    for i in 0..expected.len() {
        let actual = &events[i];
        let (expected_offset, expected_state) = &expected[i];
        assert_eq!(*expected_offset, actual.instant - base);
        assert_eq!(expected_state, &actual.state);
    }
}

#[test]
fn minuterie_timing() {
    assert_timing(
        100,
        &[10, 50, 200, 500, 610, 611, 612, 613],
        &[
            (10, State::ACTIVE),
            (150, State::INACTIVE),
            (200, State::ACTIVE),
            (300, State::INACTIVE),
            (500, State::ACTIVE),
            (600, State::INACTIVE),
            (610, State::ACTIVE),
            (713, State::INACTIVE),
        ],
    );
}

#[test]
fn cold_start_is_inactive() {
    let minuterie = Minuterie::new(100, 100);
    assert_eq!(minuterie.last_state, State::INACTIVE);
    assert_eq!(minuterie.get_current_state(100), State::INACTIVE);
    assert_eq!(minuterie.timeout, 100);
    assert_eq!(minuterie.last_instant, 0);
}

#[test]
fn heartbeat_while_active_emits_nothing() {
    let mut minuterie = Minuterie::new(100, 100);
    let first = minuterie.step(Input::Beat(Heartbeat { instant: 110 }), 110);
    assert_eq!(first, Some(StateChange { instant: 110, state: State::ACTIVE }));
    let second = minuterie.step(Input::Beat(Heartbeat { instant: 150 }), 150);
    assert_eq!(second, None);
    let third = minuterie.step(Input::Beat(Heartbeat { instant: 151 }), 152);
    assert_eq!(third, None);
    assert_eq!(minuterie.last_state, State::ACTIVE);
}

#[test]
fn repeated_expiries_emit_once() {
    let mut minuterie = Minuterie::new(100, 100);
    assert_eq!(minuterie.step(Input::Expire, 100), None);
    assert_eq!(minuterie.step(Input::Expire, 250), None);
    let mut active = minuterie.step(Input::Beat(Heartbeat { instant: 300 }), 300);
    assert_eq!(active, Some(StateChange { instant: 300, state: State::ACTIVE }));
    active = minuterie.step(Input::Expire, 400);
    assert_eq!(active, Some(StateChange { instant: 400, state: State::INACTIVE }));
    assert_eq!(minuterie.step(Input::Expire, 500), None);
    assert_eq!(minuterie.step(Input::Expire, 600), None);
}

#[test]
fn out_of_order_heartbeats_are_accepted() {
    let mut minuterie = Minuterie::new(300, 300);
    assert_eq!(
        minuterie.step(Input::Beat(Heartbeat { instant: 600 }), 600),
        Some(StateChange { instant: 600, state: State::ACTIVE }),
    );
    // an older heartbeat replaces the newer one: a producer race is not an error
    assert_eq!(minuterie.step(Input::Beat(Heartbeat { instant: 450 }), 610), None);
    assert_eq!(minuterie.last_instant, 450);
    // so the deadline moved backwards, from 900 to 750
    assert_eq!(minuterie.get_duration_until_timeout(610), 140);
    assert_eq!(
        minuterie.step(Input::Expire, 750),
        Some(StateChange { instant: 750, state: State::INACTIVE }),
    );
}

#[test]
fn stale_heartbeat_flips_to_inactive() {
    let mut minuterie = Minuterie::new(100, 100);
    minuterie.step(Input::Beat(Heartbeat { instant: 200 }), 200);
    assert_eq!(minuterie.last_state, State::ACTIVE);
    // delivered so late that it is already expired on arrival
    let flipped = minuterie.step(Input::Beat(Heartbeat { instant: 210 }), 400);
    assert_eq!(flipped, Some(StateChange { instant: 400, state: State::INACTIVE }));
}

#[test]
fn duration_until_timeout_counts_down() {
    let minuterie = Minuterie::new(100, 100);
    // deadline is last_instant + timeout = 100
    assert_eq!(minuterie.get_duration_until_timeout(0), 100);
    assert_eq!(minuterie.get_duration_until_timeout(40), 60);
    assert_eq!(minuterie.get_duration_until_timeout(100), 0);
    assert_eq!(minuterie.get_duration_until_timeout(5000), 0);
}

#[test]
fn duration_until_timeout_saturates() {
    let minuterie = Minuterie {
        last_instant: u64::MAX - 10,
        last_state: State::ACTIVE,
        timeout: 100,
    };
    assert_eq!(minuterie.get_duration_until_timeout(0), u64::MAX);
    assert_eq!(minuterie.get_duration_until_timeout(u64::MAX), 0);
}

#[test]
fn publish_state_reports_only_transitions() {
    let mut minuterie = Minuterie::new(100, 100);
    assert_eq!(minuterie.publish_state(100), None);
    minuterie.last_instant = 150;
    assert_eq!(
        minuterie.publish_state(160),
        Some(StateChange { instant: 160, state: State::ACTIVE }),
    );
    assert_eq!(minuterie.publish_state(200), None);
    assert_eq!(
        minuterie.publish_state(250),
        Some(StateChange { instant: 250, state: State::INACTIVE }),
    );
    assert_eq!(minuterie.publish_state(300), None);
}

#[test]
fn run_turn_processes_queued_heartbeats_and_stops_when_input_closes() {
    let launch = Instant::now();
    let (heartbeat_tx, heartbeat_rx) = mpsc::channel::<Heartbeat>();
    let (change_tx, change_rx) = mpsc::channel::<StateChange>();
    // a timeout so large that the test's own runtime never reaches it
    let timeout = 1_000_000_000;
    let mut minuterie = Minuterie::new(timeout, timeout);

    heartbeat_tx.send(Heartbeat { instant: timeout + 1 }).unwrap();
    heartbeat_tx.send(Heartbeat { instant: timeout + 2 }).unwrap();
    drop(heartbeat_tx);

    let mut turns = 0;
    loop {
        match minuterie.run_turn(&launch, &heartbeat_rx, &change_tx) {
            Ok(true) => turns += 1,
            Ok(false) => break,
            Err(fault) => panic!("unexpected fault: {:?}", fault),
        }
        assert!(turns < 10, "the run should end once the input closes");
    }

    let emitted: Vec<StateChange> = change_rx.try_iter().collect();
    assert_eq!(emitted.len(), 1);
    assert_eq!(emitted[0].state, State::ACTIVE);
}

#[test]
fn run_turn_reports_send_failure_when_consumer_is_gone() {
    let launch = Instant::now();
    let (heartbeat_tx, heartbeat_rx) = mpsc::channel::<Heartbeat>();
    let (change_tx, change_rx) = mpsc::channel::<StateChange>();
    drop(change_rx);
    let timeout = 1_000_000_000;
    let mut minuterie = Minuterie::new(timeout, timeout);
    heartbeat_tx.send(Heartbeat { instant: timeout + 1 }).unwrap();

    let outcome = minuterie.run_turn(&launch, &heartbeat_rx, &change_tx);
    assert_eq!(outcome, Err(Fault::SendFailure));
}

#[test]
fn emitted_states_alternate_on_a_concrete_run() {
    let mut minuterie = Minuterie::new(100, 100);
    let turns = [
        (Input::Beat(Heartbeat { instant: 110 }), 110),
        (Input::Beat(Heartbeat { instant: 150 }), 150),
        (Input::Expire, 250),
        (Input::Expire, 251),
        (Input::Beat(Heartbeat { instant: 400 }), 400),
        (Input::Beat(Heartbeat { instant: 401 }), 402),
        (Input::Expire, 501),
        (Input::Beat(Heartbeat { instant: 600 }), 600),
    ];
    let mut emitted: Vec<StateChange> = vec![];
    for (input, now) in turns {
        if let Some(event) = minuterie.step(input, now) {
            emitted.push(event);
        }
    }
    assert_eq!(emitted.len(), 5);
    for pair in emitted.windows(2) {
        assert_ne!(pair[0].state, pair[1].state);
    }
    assert_eq!(emitted.last().unwrap().state, minuterie.last_state);
}

#[test]
fn without_heartbeats_nothing_is_ever_emitted() {
    let mut minuterie = Minuterie::new(100, 100);
    for k in 1..6u64 {
        // every expiry fires at or after the fixed deadline of 100
        assert_eq!(minuterie.step(Input::Expire, 100 * k), None);
    }
    assert_eq!(minuterie.last_state, State::INACTIVE);
}

#[test]
fn state_labels() {
    assert_eq!(State::ACTIVE.label(), "ACTIVE");
    assert_eq!(State::INACTIVE.label(), "INACTIVE");
}

#[test]
fn fault_messages() {
    assert_eq!(Fault::NotPrimary.message(), "Only the primary can receive messages!");
    assert_eq!(Fault::SendFailure.message(), "The event consumer is gone!");
    assert_eq!(Fault::ChannelClosed.message(), "The channel peer is gone!");
    assert_eq!(Fault::LockPoisoned.message(), "A shared lock was poisoned!");
}
