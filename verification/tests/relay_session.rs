use online_market::model::UserLocation;
use online_market::relay::ack::{Acknowledgment, ACK_OK, ACK_PERSISTENCE_FAILED};
use online_market::relay::inbound::{DecodeError, Inbound, InboundAction};
use online_market::relay::session::Session;
use online_market::relay::worker::{PersistError, TransportError, WorkerPhase, WorkerStep};

fn location(dni: &str, latitude: f32, longitude: f32) -> UserLocation {
    UserLocation {
        dni: dni.to_string(),
        latitude: latitude.to_bits(),
        longitude: longitude.to_bits(),
    }
}

fn persist_failure() -> Result<(), PersistError> {
    Err(PersistError { message: "connection refused".to_string() })
}

/// Drives the worker until it idles or exits. `fails` says for which
/// identifiers persisting fails. Returns the codes sent and the identifiers
/// persisted, in order.
fn drain(session: &mut Session<UserLocation>, fails: &[&str]) -> (Vec<i16>, Vec<String>, WorkerStep<UserLocation>) {
    let mut codes = Vec::new();
    let mut persisted = Vec::new();
    loop {
        match session.dispatch() {
            WorkerStep::Persist(update) => {
                let outcome = if fails.contains(&update.dni.as_str()) {
                    persist_failure()
                } else {
                    Ok(())
                };
                persisted.push(update.dni);
                let ack = session.persisted(outcome).expect("an update was in hand");
                codes.push(ack.code());
                session.acknowledged(Ok(()));
            }
            last => return (codes, persisted, last),
        }
    }
}

#[test]
fn success_then_failure_is_acknowledged_200_then_500() {
    let mut session = Session::start();
    assert_eq!(
        session.receive(Inbound::Update(location("A", 1.0, 2.0))),
        InboundAction::Enqueued
    );
    assert_eq!(
        session.receive(Inbound::Update(location("B", 3.0, 4.0))),
        InboundAction::Enqueued
    );

    let first = session.dispatch();
    assert_eq!(first, WorkerStep::Persist(location("A", 1.0, 2.0)));
    if let WorkerStep::Persist(update) = first {
        assert_eq!(f32::from_bits(update.latitude), 1.0);
        assert_eq!(f32::from_bits(update.longitude), 2.0);
    }
    let first_ack = session.persisted(Ok(())).unwrap();
    session.acknowledged(Ok(()));

    assert_eq!(session.dispatch(), WorkerStep::Persist(location("B", 3.0, 4.0)));
    let second_ack = session.persisted(persist_failure()).unwrap();
    session.acknowledged(Ok(()));

    assert_eq!(vec![first_ack.code(), second_ack.code()], vec![200, 500]);
    assert_eq!(session.dispatch(), WorkerStep::Idle);
    assert!(!session.is_finished());
}

#[test]
fn connection_closed_at_once_emits_nothing() {
    let mut session: Session<UserLocation> = Session::start();
    assert!(session.is_receiving());
    assert_eq!(session.receive(Inbound::EndOfInput), InboundAction::Stopped);
    assert!(!session.is_receiving());
    assert!(!session.is_finished());
    let (codes, persisted, last) = drain(&mut session, &[]);
    assert!(codes.is_empty());
    assert!(persisted.is_empty());
    assert_eq!(last, WorkerStep::Exit);
    assert!(session.is_finished());
    assert_eq!(session.worker_phase(), WorkerPhase::Exited);
}

#[test]
fn every_update_is_acknowledged_once_in_order() {
    let mut session = Session::start();
    let names = ["u0", "u1", "u2", "u3", "u4", "u5", "u6"];
    let mut codes = Vec::new();
    let mut persisted = Vec::new();
    for (index, name) in names.iter().enumerate() {
        assert_eq!(
            session.receive(Inbound::Update(location(name, index as f32, -(index as f32)))),
            InboundAction::Enqueued
        );
        // The worker gets a turn after every second arrival.
        if index % 2 == 1 {
            let (more_codes, more_persisted, last) = drain(&mut session, &[]);
            codes.extend(more_codes);
            persisted.extend(more_persisted);
            assert_eq!(last, WorkerStep::Idle);
        }
    }
    assert_eq!(session.receive(Inbound::EndOfInput), InboundAction::Stopped);
    let (more_codes, more_persisted, last) = drain(&mut session, &[]);
    codes.extend(more_codes);
    persisted.extend(more_persisted);
    assert_eq!(last, WorkerStep::Exit);
    assert_eq!(codes, vec![200; 7]);
    assert_eq!(persisted, names.iter().map(|name| name.to_string()).collect::<Vec<_>>());
    assert!(session.is_finished());
}

#[test]
fn one_failure_marks_only_its_own_acknowledgment() {
    let mut session = Session::start();
    for name in ["a", "b", "c", "d", "e"] {
        session.receive(Inbound::Update(location(name, 0.5, 0.25)));
    }
    session.receive(Inbound::EndOfInput);
    let (codes, persisted, last) = drain(&mut session, &["c"]);
    assert_eq!(codes, vec![200, 200, 500, 200, 200]);
    assert_eq!(persisted, vec!["a", "b", "c", "d", "e"]);
    assert_eq!(last, WorkerStep::Exit);
    assert!(session.is_finished());
}

#[test]
fn failure_does_not_end_the_session() {
    let mut session = Session::start();
    session.receive(Inbound::Update(location("first", 1.0, 1.0)));
    assert!(matches!(session.dispatch(), WorkerStep::Persist(_)));
    assert_eq!(session.persisted(persist_failure()), Some(Acknowledgment::PersistenceFailed));
    session.acknowledged(Ok(()));
    assert!(session.is_receiving());
    assert_eq!(session.worker_phase(), WorkerPhase::Polling);
    assert_eq!(
        session.receive(Inbound::Update(location("second", 2.0, 2.0))),
        InboundAction::Enqueued
    );
    assert_eq!(session.dispatch(), WorkerStep::Persist(location("second", 2.0, 2.0)));
    assert_eq!(session.persisted(Ok(())), Some(Acknowledgment::Persisted));
}

#[test]
fn malformed_frame_is_reported_and_skipped() {
    let mut session = Session::start();
    session.receive(Inbound::Update(location("before", 1.0, 2.0)));
    let error = DecodeError { message: "missing field `dni`".to_string() };
    assert_eq!(
        session.receive(Inbound::Malformed(error.clone())),
        InboundAction::Reported(error)
    );
    assert!(session.is_receiving());
    assert_eq!(session.backlog(), 1);
    assert_eq!(
        session.receive(Inbound::Update(location("after", 3.0, 4.0))),
        InboundAction::Enqueued
    );
    session.receive(Inbound::EndOfInput);
    let (codes, persisted, last) = drain(&mut session, &[]);
    assert_eq!(codes, vec![200, 200]);
    assert_eq!(persisted, vec!["before", "after"]);
    assert_eq!(last, WorkerStep::Exit);
}

#[test]
fn malformed_frame_alone_produces_no_acknowledgment() {
    let mut session: Session<UserLocation> = Session::start();
    let action = session.receive(Inbound::Malformed(DecodeError { message: "not json".to_string() }));
    assert!(action.keeps_reading());
    assert_eq!(session.backlog(), 0);
    assert_eq!(session.dispatch(), WorkerStep::Idle);
    assert_eq!(session.persisted(Ok(())), None);
}

#[test]
fn control_frame_is_skipped() {
    let mut session: Session<UserLocation> = Session::start();
    assert_eq!(session.receive(Inbound::Control), InboundAction::Skipped);
    assert_eq!(session.backlog(), 0);
    assert!(session.is_receiving());
}

#[test]
fn close_drains_what_is_queued() {
    let mut session = Session::start();
    for name in ["x", "y", "z"] {
        session.receive(Inbound::Update(location(name, 9.0, 9.0)));
    }
    assert_eq!(session.receive(Inbound::EndOfInput), InboundAction::Stopped);
    assert_eq!(session.backlog(), 3);
    assert!(!session.is_finished());

    for name in ["x", "y", "z"] {
        assert_eq!(session.dispatch(), WorkerStep::Persist(location(name, 9.0, 9.0)));
        assert!(!session.is_finished());
        assert_eq!(session.persisted(Ok(())), Some(Acknowledgment::Persisted));
        session.acknowledged(Ok(()));
        assert!(!session.is_finished());
    }
    assert_eq!(session.backlog(), 0);
    assert_eq!(session.dispatch(), WorkerStep::Exit);
    assert!(session.is_finished());
}

#[test]
fn frames_after_the_end_are_not_taken_in() {
    let mut session = Session::start();
    session.receive(Inbound::EndOfInput);
    assert_eq!(
        session.receive(Inbound::Update(location("late", 1.0, 1.0))),
        InboundAction::Stopped
    );
    assert_eq!(session.receive(Inbound::Control), InboundAction::Stopped);
    assert_eq!(
        session.receive(Inbound::Malformed(DecodeError { message: "late".to_string() })),
        InboundAction::Stopped
    );
    assert_eq!(session.backlog(), 0);
    assert_eq!(session.dispatch(), WorkerStep::Exit);
}

#[test]
fn worker_handles_one_update_at_a_time() {
    let mut session = Session::start();
    session.receive(Inbound::Update(location("one", 1.0, 1.0)));
    session.receive(Inbound::Update(location("two", 2.0, 2.0)));
    assert!(matches!(session.dispatch(), WorkerStep::Persist(_)));
    assert_eq!(session.worker_phase(), WorkerPhase::Persisting);
    assert_eq!(session.dispatch(), WorkerStep::Busy);
    assert_eq!(session.backlog(), 1);
    assert_eq!(session.persisted(Ok(())), Some(Acknowledgment::Persisted));
    assert_eq!(session.worker_phase(), WorkerPhase::Acknowledging);
    assert_eq!(session.dispatch(), WorkerStep::Busy);
    assert_eq!(session.backlog(), 1);
    session.acknowledged(Ok(()));
    assert_eq!(session.dispatch(), WorkerStep::Persist(location("two", 2.0, 2.0)));
}

#[test]
fn undelivered_acknowledgment_does_not_stop_the_worker() {
    let mut session = Session::start();
    session.receive(Inbound::Update(location("one", 1.0, 1.0)));
    session.receive(Inbound::Update(location("two", 2.0, 2.0)));
    assert!(matches!(session.dispatch(), WorkerStep::Persist(_)));
    assert_eq!(session.persisted(Ok(())), Some(Acknowledgment::Persisted));
    session.acknowledged(Err(TransportError { message: "broken pipe".to_string() }));
    assert_eq!(session.worker_phase(), WorkerPhase::Polling);
    assert_eq!(session.dispatch(), WorkerStep::Persist(location("two", 2.0, 2.0)));
}

#[test]
fn results_without_an_update_in_hand_are_ignored() {
    let mut session: Session<UserLocation> = Session::start();
    assert_eq!(session.persisted(Ok(())), None);
    assert_eq!(session.persisted(persist_failure()), None);
    session.acknowledged(Ok(()));
    assert_eq!(session.worker_phase(), WorkerPhase::Polling);
    session.receive(Inbound::Update(location("one", 1.0, 1.0)));
    assert!(matches!(session.dispatch(), WorkerStep::Persist(_)));
    session.acknowledged(Ok(()));
    assert_eq!(session.worker_phase(), WorkerPhase::Persisting);
    assert_eq!(session.persisted(Ok(())), Some(Acknowledgment::Persisted));
    assert_eq!(session.persisted(Ok(())), None);
}

#[test]
fn exited_worker_stays_exited() {
    let mut session: Session<UserLocation> = Session::start();
    session.receive(Inbound::EndOfInput);
    assert_eq!(session.dispatch(), WorkerStep::Exit);
    assert_eq!(session.dispatch(), WorkerStep::Exit);
    assert_eq!(session.persisted(Ok(())), None);
    assert!(session.is_finished());
}

#[test]
fn idle_worker_waits_for_the_inbound_loop() {
    let mut session = Session::start();
    assert_eq!(session.dispatch(), WorkerStep::Idle);
    assert_eq!(session.worker_phase(), WorkerPhase::Polling);
    session.receive(Inbound::Update(location("late", 4.0, 5.0)));
    assert_eq!(session.dispatch(), WorkerStep::Persist(location("late", 4.0, 5.0)));
}

#[test]
fn acknowledgment_codes_are_200_and_500() {
    assert_eq!(Acknowledgment::Persisted.code(), 200);
    assert_eq!(Acknowledgment::PersistenceFailed.code(), 500);
    assert_eq!(ACK_OK, 200);
    assert_eq!(ACK_PERSISTENCE_FAILED, 500);
}

#[test]
fn acknowledgment_follows_the_persistence_result() {
    assert_eq!(Acknowledgment::for_outcome(Ok(())), Acknowledgment::Persisted);
    assert_eq!(Acknowledgment::for_outcome(persist_failure()), Acknowledgment::PersistenceFailed);
}

#[test]
fn only_stopped_ends_the_reading() {
    assert!(InboundAction::Enqueued.keeps_reading());
    assert!(InboundAction::Skipped.keeps_reading());
    assert!(InboundAction::Reported(DecodeError { message: String::new() }).keeps_reading());
    assert!(!InboundAction::Stopped.keeps_reading());
}

#[test]
fn coordinates_pass_through_bit_for_bit() {
    let mut session = Session::start();
    let sent = location("precise", 40.416_775, -3.703_79);
    session.receive(Inbound::Update(sent.clone()));
    match session.dispatch() {
        WorkerStep::Persist(received) => {
            assert_eq!(received, sent);
            assert_eq!(f32::from_bits(received.latitude), 40.416_775_f32);
            assert_eq!(f32::from_bits(received.longitude), -3.703_79_f32);
        }
        other => panic!("expected an update, got {:?}", other),
    }
}
