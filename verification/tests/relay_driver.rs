use online_market::model::UserLocation;
use online_market::relay::inbound::{DecodeError, Inbound};
use online_market::relay::queue::{DispatchQueue, Polled};
use online_market::relay::session::Session;
use online_market::relay::worker::{PersistError, TransportError, WorkerPhase, WorkerStep};
use std::collections::VecDeque;
use std::sync::{Arc, Mutex};
use tokio::sync::Notify;

/// A small deterministic generator, so that the schedules below are the same
/// on every run.
struct Schedule(u64);

impl Schedule {
    fn next(&mut self, bound: u64) -> u64 {
        self.0 = self.0.wrapping_mul(6364136223846793005).wrapping_add(1442695040888963407);
        (self.0 >> 33) % bound
    }
}

fn location(index: u32) -> UserLocation {
    UserLocation {
        dni: format!("user-{}", index),
        latitude: (index as f32 * 0.5).to_bits(),
        longitude: (-(index as f32)).to_bits(),
    }
}

#[test]
fn queue_agrees_with_a_plain_list_on_any_schedule() {
    for seed in 0..50u64 {
        let mut schedule = Schedule(seed);
        let mut queue = DispatchQueue::new();
        let mut model: VecDeque<u64> = VecDeque::new();
        let mut open = true;
        let mut pushed = Vec::new();
        let mut popped = Vec::new();
        for step in 0..400u64 {
            match schedule.next(10) {
                0..=4 => {
                    let result = queue.push(step);
                    if open {
                        assert_eq!(result, Ok(()));
                        model.push_back(step);
                        pushed.push(step);
                    } else {
                        assert_eq!(result, Err(step));
                    }
                }
                5..=8 => match queue.pop() {
                    Polled::Item(value) => {
                        assert_eq!(model.pop_front(), Some(value));
                        popped.push(value);
                    }
                    Polled::Empty => assert!(model.is_empty() && open),
                    Polled::Closed => assert!(model.is_empty() && !open),
                },
                _ => {
                    if step > 300 {
                        queue.close();
                        open = false;
                    }
                }
            }
            assert_eq!(queue.len(), model.len());
            assert_eq!(queue.is_open(), open);
        }
        assert_eq!(popped[..], pushed[..popped.len()]);
        assert_eq!(pushed.len(), popped.len() + queue.len());
    }
}

#[test]
fn session_keeps_order_on_any_schedule() {
    for seed in 0..50u64 {
        let mut schedule = Schedule(seed.wrapping_mul(7919) + 1);
        let mut session = Session::start();
        let mut accepted: Vec<String> = Vec::new();
        let mut handed_out: Vec<String> = Vec::new();
        let mut outcomes: Vec<bool> = Vec::new();
        let mut codes: Vec<i16> = Vec::new();
        let mut arrived = 0u32;
        let mut ended = false;

        for _ in 0..600 {
            match schedule.next(8) {
                0 | 1 => {
                    let update = location(arrived);
                    arrived += 1;
                    let name = update.dni.clone();
                    let action = session.receive(Inbound::Update(update));
                    assert_eq!(action.keeps_reading(), !ended);
                    if !ended {
                        accepted.push(name);
                    }
                }
                2 => {
                    let error = DecodeError { message: "bad frame".to_string() };
                    session.receive(Inbound::Malformed(error));
                }
                3 => {
                    if schedule.next(40) == 0 {
                        session.receive(Inbound::EndOfInput);
                        ended = true;
                    } else {
                        session.receive(Inbound::Control);
                    }
                }
                4 | 5 => {
                    if let WorkerStep::Persist(update) = session.dispatch() {
                        handed_out.push(update.dni);
                    }
                }
                6 => {
                    let succeeds = schedule.next(3) != 0;
                    let outcome = if succeeds {
                        Ok(())
                    } else {
                        Err(PersistError { message: "failed".to_string() })
                    };
                    if let Some(ack) = session.persisted(outcome) {
                        outcomes.push(succeeds);
                        codes.push(ack.code());
                    }
                }
                _ => {
                    let sent = if schedule.next(4) == 0 {
                        Err(TransportError { message: "gone".to_string() })
                    } else {
                        Ok(())
                    };
                    session.acknowledged(sent);
                }
            }
            // The worker never runs ahead of the arrivals, nor the
            // acknowledgments ahead of the worker.
            assert!(codes.len() <= handed_out.len());
            assert!(handed_out.len() <= codes.len() + 1);
            assert_eq!(handed_out[..], accepted[..handed_out.len()]);
            assert_eq!(session.backlog(), accepted.len() - handed_out.len());
            assert_eq!(session.is_receiving(), !ended);
        }

        // Close and let the worker finish its work.
        session.receive(Inbound::EndOfInput);
        loop {
            match session.worker_phase() {
                WorkerPhase::Polling => match session.dispatch() {
                    WorkerStep::Persist(update) => handed_out.push(update.dni),
                    WorkerStep::Exit => break,
                    other => panic!("a closed session never answers {:?}", other),
                },
                WorkerPhase::Persisting => {
                    let ack = session.persisted(Ok(())).unwrap();
                    outcomes.push(true);
                    codes.push(ack.code());
                }
                WorkerPhase::Acknowledging => session.acknowledged(Ok(())),
                WorkerPhase::Exited => break,
            }
        }
        assert!(session.is_finished());
        assert_eq!(handed_out, accepted);
        assert_eq!(codes.len(), accepted.len());
        let expected: Vec<i16> =
            outcomes.iter().map(|&succeeded| if succeeded { 200 } else { 500 }).collect();
        assert_eq!(codes, expected);
    }
}

#[test]
fn two_tasks_share_one_session() {
    let runtime = tokio::runtime::Builder::new_current_thread().build().unwrap();
    let (codes, persisted) = runtime.block_on(async {
        let session = Arc::new(Mutex::new(Session::<UserLocation>::start()));
        let progress = Arc::new(Notify::new());

        let worker_session = Arc::clone(&session);
        let worker_progress = Arc::clone(&progress);
        let worker = tokio::spawn(async move {
            let mut codes = Vec::new();
            let mut persisted = Vec::new();
            loop {
                let step = worker_session.lock().unwrap().dispatch();
                match step {
                    WorkerStep::Persist(update) => {
                        // The store is slow and fails for one user.
                        tokio::task::yield_now().await;
                        tokio::task::yield_now().await;
                        let outcome = if update.dni == "user-2" {
                            Err(PersistError { message: "no such user".to_string() })
                        } else {
                            Ok(())
                        };
                        persisted.push(update.dni);
                        let ack = worker_session.lock().unwrap().persisted(outcome);
                        if let Some(ack) = ack {
                            codes.push(ack.code());
                            tokio::task::yield_now().await;
                            worker_session.lock().unwrap().acknowledged(Ok(()));
                        }
                    }
                    WorkerStep::Idle => worker_progress.notified().await,
                    WorkerStep::Busy | WorkerStep::Exit => break,
                }
            }
            (codes, persisted)
        });

        let mut frames = Vec::new();
        for index in 0..6 {
            frames.push(Inbound::Update(location(index)));
            if index == 3 {
                frames.push(Inbound::Malformed(DecodeError { message: "not json".to_string() }));
            }
        }
        frames.push(Inbound::EndOfInput);
        for frame in frames {
            let action = session.lock().unwrap().receive(frame);
            progress.notify_one();
            if !action.keeps_reading() {
                break;
            }
            tokio::task::yield_now().await;
        }

        let result = worker.await.unwrap();
        assert!(session.lock().unwrap().is_finished());
        result
    });
    assert_eq!(codes, vec![200, 200, 500, 200, 200, 200]);
    assert_eq!(
        persisted,
        vec!["user-0", "user-1", "user-2", "user-3", "user-4", "user-5"]
    );
}
