use ddns::probe::compute_backoff;
use ddns::probe::NetworkProbe;
use ddns::probe::NetworkStatus;

#[test]
fn probe_starts_with_default_policy() {
    let probe = NetworkProbe::new();
    assert_eq!(probe.consecutive_failures, 0);
    assert_eq!(probe.base_backoff_secs, 5);
    assert_eq!(probe.max_backoff_secs, 300);
}

#[test]
fn backoff_sequence_then_recovery() {
    // Three consecutive failures wait 5, 10 and 20 seconds, and the next
    // success reports a recovery.
    let mut probe = NetworkProbe::new();
    assert_eq!(probe.handle_failure(), 5);
    assert_eq!(probe.handle_failure(), 10);
    assert_eq!(probe.handle_failure(), 20);
    assert_eq!(probe.consecutive_failures, 3);
    assert_eq!(probe.record_success(), NetworkStatus::JustRecovered);
    assert_eq!(probe.consecutive_failures, 0);
}

#[test]
fn success_without_prior_failures_is_already_online() {
    let mut probe = NetworkProbe::new();
    assert_eq!(probe.record_success(), NetworkStatus::AlreadyOnline);
    assert_eq!(probe.consecutive_failures, 0);
}

#[test]
fn backoff_is_capped_at_the_maximum() {
    let mut probe = NetworkProbe::new();
    let waits: Vec<u64> = (0..9).map(|_| probe.handle_failure()).collect();
    assert_eq!(waits, vec![5, 10, 20, 40, 80, 160, 300, 300, 300]);
}

#[test]
fn backoff_formula_on_other_policies() {
    assert_eq!(compute_backoff(7, 1000, 1), 7);
    assert_eq!(compute_backoff(7, 1000, 4), 56);
    assert_eq!(compute_backoff(7, 1000, 8), 896);
    assert_eq!(compute_backoff(7, 1000, 9), 1000);
    assert_eq!(compute_backoff(0, 10, 5), 0);
    assert_eq!(compute_backoff(10, 0, 3), 0);
    assert_eq!(compute_backoff(400, 300, 1), 300);
}

#[test]
fn long_streaks_stay_at_the_maximum() {
    let mut probe = NetworkProbe::new();
    for _ in 0..70 {
        probe.handle_failure();
    }
    assert_eq!(probe.handle_failure(), 300);
    assert_eq!(probe.consecutive_failures, 71);
    assert_eq!(probe.record_success(), NetworkStatus::JustRecovered);
}
