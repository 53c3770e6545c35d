use deploy_core::probe::{cname_points_to, ProbeStep, ProgressLevel, ReadinessProbe, RetryPolicy};

#[test]
fn cname_budget_is_thirty_attempts_five_seconds_apart() {
    let policy = RetryPolicy::cname_check();
    assert_eq!(policy.max_attempts, 30);
    assert_eq!(policy.delay_ms, 5000);
    let domain = RetryPolicy::domain_check();
    assert_eq!((domain.max_attempts, domain.delay_ms), (100, 3000));
}

#[test]
fn failing_lookups_exhaust_budget_with_warning() {
    let mut probe = ReadinessProbe::new(RetryPolicy::cname_check(), 4);
    let mut attempts = 0;
    let mut waited: u64 = 0;
    let mut last = ProbeStep::Confirmed;
    while let Some(_) = probe.next_resolver() {
        attempts += 1;
        last = probe.record(None);
        if let ProbeStep::Wait(ms) = last {
            waited += ms;
        }
    }
    assert_eq!(attempts, 30);
    assert_eq!(last, ProbeStep::GaveUp);
    assert_eq!(waited, 29 * 5000);
    let (value, level) = probe.outcome("www.example.com");
    assert_eq!(value, "www.example.com");
    assert_eq!(level, ProgressLevel::Warn);
}

#[test]
fn resolvers_are_taken_round_robin() {
    let mut probe = ReadinessProbe::new(RetryPolicy::fixed(10, 1), 3);
    let mut seen = Vec::new();
    while let Some(i) = probe.next_resolver() {
        seen.push(i);
        probe.record(None);
    }
    assert_eq!(seen, vec![0, 1, 2, 0, 1, 2, 0, 1, 2, 0]);
}

#[test]
fn success_stops_the_probe() {
    let mut probe = ReadinessProbe::new(RetryPolicy::domain_check(), 2);
    assert_eq!(probe.next_resolver(), Some(0));
    assert_eq!(probe.record(None), ProbeStep::Wait(3000));
    assert_eq!(probe.next_resolver(), Some(1));
    assert_eq!(probe.record(Some("target.example.com.".to_string())), ProbeStep::Confirmed);
    assert_eq!(probe.next_resolver(), None);
    let (value, level) = probe.outcome("www.example.com");
    assert_eq!(value, "target.example.com.");
    assert_eq!(level, ProgressLevel::Info);
}

#[test]
fn zero_budget_gives_up_at_once() {
    let probe = ReadinessProbe::new(RetryPolicy::fixed(0, 5), 1);
    assert_eq!(probe.next_resolver(), None);
    assert_eq!(probe.outcome("a.b").1, ProgressLevel::Warn);
}

#[test]
fn cname_comparison_ignores_trailing_dots() {
    assert!(cname_points_to("target.example.com.", "target.example.com"));
    assert!(cname_points_to("a..", "a."));
    assert!(!cname_points_to("target.example.org.", "target.example.com."));
    assert!(!cname_points_to("a.b", "a"));
    assert!(cname_points_to("", "..."));
}
