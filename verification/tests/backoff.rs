use media_manager_client::backoff::{PollAction, PollBackoff, PollOutcome};

#[test]
fn starts_at_poll_interval() {
    let b = PollBackoff::new(5);
    assert_eq!(b.poll_interval_secs(), 5);
    assert_eq!(b.error_sleep_secs(), 5);
    assert_eq!(b.max_sleep_secs(), 320);
}

#[test]
fn failures_double_until_cap() {
    let mut b = PollBackoff::new(5);
    let sleeps: Vec<PollAction> = (0..8).map(|_| b.step(PollOutcome::Failed)).collect();
    let expected: Vec<PollAction> = [10, 20, 40, 80, 160, 320, 320, 320].iter().map(|s| PollAction::Sleep(*s)).collect();
    assert_eq!(sleeps, expected);
}

#[test]
fn no_job_resets_and_sleeps_one_interval() {
    let mut b = PollBackoff::new(3);
    b.step(PollOutcome::Failed);
    b.step(PollOutcome::Failed);
    assert_eq!(b.error_sleep_secs(), 12);
    assert_eq!(b.step(PollOutcome::NoJob), PollAction::Sleep(3));
    assert_eq!(b.error_sleep_secs(), 3);
    assert_eq!(b.step(PollOutcome::Failed), PollAction::Sleep(6));
}

#[test]
fn job_is_processed_without_changing_backoff() {
    let mut b = PollBackoff::new(2);
    b.step(PollOutcome::Failed);
    assert_eq!(b.step(PollOutcome::Job), PollAction::ProcessJob);
    assert_eq!(b.error_sleep_secs(), 4);
    assert_eq!(b.step(PollOutcome::Failed), PollAction::Sleep(8));
}

#[test]
fn zero_interval_never_sleeps() {
    let mut b = PollBackoff::new(0);
    assert_eq!(b.step(PollOutcome::Failed), PollAction::Sleep(0));
    assert_eq!(b.step(PollOutcome::NoJob), PollAction::Sleep(0));
}

#[test]
fn largest_interval() {
    let p = u64::MAX / 64;
    let mut b = PollBackoff::new(p);
    for _ in 0..10 {
        b.step(PollOutcome::Failed);
    }
    assert_eq!(b.error_sleep_secs(), 64 * p);
}

#[test]
fn found_jobs_neither_sleep_nor_reset_the_count() {
    let mut b = PollBackoff::new(5);
    assert_eq!(b.step(PollOutcome::Failed), PollAction::Sleep(10));
    assert_eq!(b.step(PollOutcome::Job), PollAction::ProcessJob);
    assert_eq!(b.step(PollOutcome::Failed), PollAction::Sleep(20));
    assert_eq!(b.step(PollOutcome::Job), PollAction::ProcessJob);
    assert_eq!(b.step(PollOutcome::Failed), PollAction::Sleep(40));
    assert_eq!(b.step(PollOutcome::NoJob), PollAction::Sleep(5));
    assert_eq!(b.step(PollOutcome::Failed), PollAction::Sleep(10));
}
