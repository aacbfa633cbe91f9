use mqtt_presence_checker::Heartbeat;
use mqtt_presence_checker::Minuterie;
use mqtt_presence_checker::TimedRecv;
use std::sync::mpsc;

#[test]
fn recv_returns_queued_heartbeat() {
    let (tx, rx) = mpsc::channel::<Heartbeat>();
    let minuterie = Minuterie::new(1_000_000_000, 1_000_000_000);
    tx.send(Heartbeat { instant: 42 }).unwrap();
    match minuterie.recv(&rx, 0) {
        TimedRecv::Received(heartbeat) => assert_eq!(heartbeat.instant, 42),
        other => panic!("expected a heartbeat, got {:?}", other),
    }
}

#[test]
fn recv_reports_closed_input() {
    let (tx, rx) = mpsc::channel::<Heartbeat>();
    let minuterie = Minuterie::new(1_000_000_000, 1_000_000_000);
    drop(tx);
    assert!(matches!(minuterie.recv(&rx, 0), TimedRecv::Closed));
}

#[test]
fn recv_expires_at_the_deadline() {
    let (_tx, rx) = mpsc::channel::<Heartbeat>();
    let minuterie = Minuterie::new(5, 5);
    // deadline is 5; a wait started at 0 sleeps those few milliseconds
    assert!(matches!(minuterie.recv(&rx, 0), TimedRecv::Expired));
}

#[test]
fn recv_past_the_deadline_blocks_until_a_heartbeat() {
    let (tx, rx) = mpsc::channel::<Heartbeat>();
    let minuterie = Minuterie::new(5, 5);
    tx.send(Heartbeat { instant: 7 }).unwrap();
    // remaining time at 1000 is zero: an expiry may not be reported again
    match minuterie.recv(&rx, 1000) {
        TimedRecv::Received(heartbeat) => assert_eq!(heartbeat.instant, 7),
        other => panic!("expected a heartbeat, got {:?}", other),
    }
}
