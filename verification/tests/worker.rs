use std::time::Duration;
use webhook::backoff::{calculate_backoff, checked_backoff, two_to_the};
use webhook::worker::{worker_start, worker_step, RetryPolicy, WorkerAction, WorkerInput, WorkerState};

#[test]
fn calculate_backoff_works() {
    let base = Duration::from_secs(1);
    let max = Duration::from_secs(60);

    assert_eq!(calculate_backoff(1, base, max), Duration::from_secs(1));
    assert_eq!(calculate_backoff(2, base, max), Duration::from_secs(2));
    assert_eq!(calculate_backoff(3, base, max), Duration::from_secs(4));
    assert_eq!(calculate_backoff(4, base, max), Duration::from_secs(8));
    assert_eq!(calculate_backoff(10, base, max), Duration::from_secs(60)); // capped
}

#[test]
fn backoff_handles_fractional_and_large_values() {
    let base = Duration::from_millis(1500);
    assert_eq!(calculate_backoff(3, base, Duration::from_secs(3600)), Duration::from_secs(6));
    assert_eq!(calculate_backoff(32, Duration::from_secs(1), Duration::from_secs(300)), Duration::from_secs(300));
    assert_eq!(calculate_backoff(2, base, base), base);
}

#[test]
fn standard_policy_matches_the_worker() {
    let p = RetryPolicy::standard();
    assert_eq!(p.max_retries, 5);
    assert_eq!(p.base_delay, Duration::from_secs(1));
    assert_eq!(p.max_delay, Duration::from_secs(300));
    assert_eq!(p.consume_error_pause, Duration::from_secs(5));
}

#[test]
fn worker_loop_processes_multiple_events() {
    let p = RetryPolicy::standard();
    let (mut state, action) = worker_start();
    assert_eq!(action, WorkerAction::Consume);
    let mut delivered = 0;
    for _ in 0..2 {
        let (s, a) = worker_step(&p, state, WorkerInput::EventReceived);
        assert_eq!(a, WorkerAction::Deliver { attempt: 1 });
        let (s, a) = worker_step(&p, s, WorkerInput::DeliverySucceeded);
        delivered += 1;
        assert_eq!(a, WorkerAction::Consume);
        state = s;
    }
    assert_eq!(delivered, 2);
    assert_eq!(state, WorkerState::AwaitingEvent);
}

#[test]
fn worker_loop_continues_on_backend_error() {
    let p = RetryPolicy::standard();
    let (state, _) = worker_start();
    let (mut state, mut action) = worker_step(&p, state, WorkerInput::EventReceived);
    let mut sleeps = Vec::new();
    let mut attempts = 0;
    loop {
        match action {
            WorkerAction::Deliver { attempt } => {
                attempts += 1;
                assert_eq!(attempt, attempts);
                (state, action) = worker_step(&p, state, WorkerInput::DeliveryFailed);
            }
            WorkerAction::Sleep(d) => {
                sleeps.push(d);
                (state, action) = worker_step(&p, state, WorkerInput::Slept);
            }
            WorkerAction::GiveUp { attempts: n } => {
                assert_eq!(n, 5);
                break;
            }
            WorkerAction::Consume => panic!("consumed before giving up"),
        }
    }
    assert_eq!(attempts, 5);
    assert_eq!(
        sleeps,
        vec![
            Duration::from_secs(1),
            Duration::from_secs(2),
            Duration::from_secs(4),
            Duration::from_secs(8)
        ]
    );
    // After giving up, the worker waits for the next event.
    assert_eq!(state, WorkerState::AwaitingEvent);
    let (_, a) = worker_step(&p, state, WorkerInput::EventReceived);
    assert_eq!(a, WorkerAction::Deliver { attempt: 1 });
}

#[test]
fn worker_pauses_after_queue_errors() {
    let p = RetryPolicy::standard();
    let (s, a) = worker_step(&p, WorkerState::AwaitingEvent, WorkerInput::ConsumeFailed);
    assert_eq!(s, WorkerState::PausingAfterConsumeError);
    assert_eq!(a, WorkerAction::Sleep(Duration::from_secs(5)));
    let (s, a) = worker_step(&p, s, WorkerInput::Slept);
    assert_eq!(s, WorkerState::AwaitingEvent);
    assert_eq!(a, WorkerAction::Consume);
}

#[test]
fn worker_retry_succeeds_after_failures() {
    let p = RetryPolicy::standard();
    let (s, _) = worker_step(&p, WorkerState::AwaitingEvent, WorkerInput::EventReceived);
    let (s, a) = worker_step(&p, s, WorkerInput::DeliveryFailed);
    assert_eq!(s, WorkerState::BackingOff { attempt: 2 });
    assert_eq!(a, WorkerAction::Sleep(Duration::from_secs(1)));
    let (s, a) = worker_step(&p, s, WorkerInput::Slept);
    assert_eq!(a, WorkerAction::Deliver { attempt: 2 });
    let (s, a) = worker_step(&p, s, WorkerInput::DeliverySucceeded);
    assert_eq!(s, WorkerState::AwaitingEvent);
    assert_eq!(a, WorkerAction::Consume);
}

#[test]
fn unexpected_reports_change_nothing() {
    let p = RetryPolicy::standard();
    let (s, a) = worker_step(&p, WorkerState::AwaitingEvent, WorkerInput::Slept);
    assert_eq!((s, a), (WorkerState::AwaitingEvent, WorkerAction::Consume));
    let (s, a) = worker_step(&p, WorkerState::BackingOff { attempt: 3 }, WorkerInput::EventReceived);
    assert_eq!(s, WorkerState::BackingOff { attempt: 3 });
    assert_eq!(a, WorkerAction::Sleep(Duration::from_secs(2)));
}

#[test]
fn checked_backoff_refuses_what_would_panic() {
    let base = Duration::from_secs(1);
    let max = Duration::from_secs(60);
    assert_eq!(checked_backoff(0, base, max), None);
    assert_eq!(checked_backoff(33, base, max), None);
    assert_eq!(checked_backoff(3, base, max), Some(Duration::from_secs(4)));
    assert_eq!(checked_backoff(32, Duration::MAX, max), None);
    assert_eq!(checked_backoff(1, Duration::MAX, Duration::MAX), Some(Duration::MAX));
    assert_eq!(checked_backoff(2, Duration::from_secs(u64::MAX / 2 + 1), max), None);
    assert_eq!(checked_backoff(2, Duration::from_secs(u64::MAX / 2), max), Some(max));
}

#[test]
fn powers_of_two() {
    assert_eq!(two_to_the(0), 1);
    assert_eq!(two_to_the(4), 16);
    assert_eq!(two_to_the(31), 2_147_483_648);
}
