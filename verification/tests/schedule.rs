use cfdydns::error::ClientError;
use cfdydns::reconcile::Outcome;
use cfdydns::schedule::{Pause, Resume, Scheduler, DEFAULT_INTERVAL_SECS, NANOS_PER_SEC};

const SEC: u128 = 1_000_000_000;

#[test]
fn default_interval_is_300_seconds() {
    assert_eq!(DEFAULT_INTERVAL_SECS, 300);
    assert_eq!(NANOS_PER_SEC, 1_000_000_000);
}

#[test]
fn scheduler_keeps_its_interval() {
    assert_eq!(Scheduler::new(300).interval_secs(), 300);
    assert_eq!(Scheduler::new(0).interval_secs(), 0);
    assert_eq!(Scheduler::new(u64::MAX).interval_secs(), u64::MAX);
}

#[test]
fn pause_is_the_rest_of_the_interval() {
    let scheduler = Scheduler::new(300);
    assert_eq!(
        scheduler.pause_after_cycle(2 * SEC),
        Some(Pause { secs: 298, subsec_nanos: 0 })
    );
    assert_eq!(
        scheduler.pause_after_cycle(1_500_000_000),
        Some(Pause { secs: 298, subsec_nanos: 500_000_000 })
    );
    assert_eq!(
        scheduler.pause_after_cycle(1),
        Some(Pause { secs: 299, subsec_nanos: 999_999_999 })
    );
    assert_eq!(
        scheduler.pause_after_cycle(300 * SEC - 1),
        Some(Pause { secs: 0, subsec_nanos: 1 })
    );
}

#[test]
fn pause_is_the_whole_interval_after_an_instant_cycle() {
    assert_eq!(
        Scheduler::new(300).pause_after_cycle(0),
        Some(Pause { secs: 300, subsec_nanos: 0 })
    );
}

#[test]
fn no_pause_after_a_cycle_as_long_as_the_interval() {
    assert_eq!(Scheduler::new(300).pause_after_cycle(300 * SEC), None);
}

#[test]
fn no_pause_after_a_cycle_longer_than_the_interval() {
    assert_eq!(Scheduler::new(300).pause_after_cycle(300 * SEC + 1), None);
    assert_eq!(Scheduler::new(300).pause_after_cycle(4000 * SEC), None);
    assert_eq!(Scheduler::new(300).pause_after_cycle(u128::MAX), None);
}

#[test]
fn no_pause_with_an_interval_of_zero() {
    assert_eq!(Scheduler::new(0).pause_after_cycle(0), None);
    assert_eq!(Scheduler::new(0).pause_after_cycle(5), None);
}

#[test]
fn pause_of_the_longest_interval_fits() {
    let scheduler = Scheduler::new(u64::MAX);
    assert_eq!(
        scheduler.pause_after_cycle(0),
        Some(Pause { secs: u64::MAX, subsec_nanos: 0 })
    );
    assert_eq!(
        scheduler.pause_after_cycle(1),
        Some(Pause { secs: u64::MAX - 1, subsec_nanos: 999_999_999 })
    );
}

#[test]
fn success_is_not_reported() {
    let scheduler = Scheduler::new(300);
    assert_eq!(
        scheduler.after_cycle(&Outcome::UpToDate, 2 * SEC),
        Resume { report: None, pause: Some(Pause { secs: 298, subsec_nanos: 0 }) }
    );
    assert_eq!(
        scheduler.after_cycle(&Outcome::Updated { public_ip: "203.0.113.5".to_string() }, 2 * SEC),
        Resume { report: None, pause: Some(Pause { secs: 298, subsec_nanos: 0 }) }
    );
}

#[test]
fn failure_is_reported_and_keeps_the_cadence() {
    let scheduler = Scheduler::new(300);
    let errors = [
        ClientError::Transport,
        ClientError::ApiRejected,
        ClientError::NotFound,
        ClientError::Ambiguous,
    ];
    for error in errors {
        for elapsed in [0, 1, 2 * SEC, 299 * SEC, 300 * SEC, 301 * SEC] {
            let failed = scheduler.after_cycle(&Outcome::Failed(error), elapsed);
            let succeeded = scheduler.after_cycle(&Outcome::UpToDate, elapsed);
            assert_eq!(failed.report, Some(error));
            assert_eq!(failed.pause, succeeded.pause);
            assert_eq!(failed.pause, scheduler.pause_after_cycle(elapsed));
        }
    }
    assert_eq!(scheduler.interval_secs(), 300);
}

#[test]
fn failure_after_a_long_cycle_starts_the_next_at_once() {
    let resume = Scheduler::new(60).after_cycle(&Outcome::Failed(ClientError::Transport), 61 * SEC);
    assert_eq!(resume, Resume { report: Some(ClientError::Transport), pause: None });
}

#[test]
fn cycles_start_one_interval_apart_or_later() {
    let scheduler = Scheduler::new(10);
    for elapsed in [0, 1, 3 * SEC, 10 * SEC - 1, 10 * SEC, 10 * SEC + 1, 25 * SEC] {
        let pause = match scheduler.pause_after_cycle(elapsed) {
            Some(p) => {
                assert!(p.subsec_nanos < 1_000_000_000);
                p.secs as u128 * SEC + p.subsec_nanos as u128
            }
            None => 0,
        };
        let gap = elapsed + pause;
        assert!(gap >= 10 * SEC);
        assert_eq!(gap, std::cmp::max(10 * SEC, elapsed));
    }
}
