use ddns::models::DnsRecord;
use ddns::reconcile::{
    diff_policy, find_record_of_type, is_fatal, next_delay, plan_cycle, Backoff, Decision,
    DELAY_FACTOR, INITIAL_DELAY, MAX_DELAY,
};
use ddns::services::DdnsError;

fn record(id: &str, name: &str, record_type: &str, content: &str) -> DnsRecord {
    DnsRecord {
        id: id.to_string(),
        name: name.to_string(),
        record_type: record_type.to_string(),
        content: content.to_string(),
        proxied: false,
        ttl: 60,
        comment: None,
    }
}

#[test]
fn skip_when_content_matches_and_delay_doubles() {
    let records = vec![record("r1", "home.example.com", "AAAA", "2001:db8::1")];
    let observed = "2001:db8::1".to_string();
    let decision = plan_cycle(&records, "AAAA", &observed).unwrap();
    assert!(matches!(decision, Decision::Skip));
    let mut backoff = Backoff::new(2, 2, 60);
    backoff.record_outcome(&decision);
    assert_eq!(backoff.delay(), 4);
}

#[test]
fn upsert_existing_when_content_differs() {
    let records = vec![record("r1", "home.example.com", "AAAA", "2001:db8::1")];
    let observed = "2001:db8::2".to_string();
    match plan_cycle(&records, "AAAA", &observed).unwrap() {
        Decision::Upsert(Some(rec)) => assert_eq!(rec.id, "r1"),
        _ => panic!("expected an update of the existing record"),
    }
}

#[test]
fn upsert_none_without_matching_type() {
    let records = vec![record("r4", "home.example.com", "A", "192.0.2.1")];
    let observed = "2001:db8::9".to_string();
    assert!(matches!(
        plan_cycle(&records, "AAAA", &observed),
        Some(Decision::Upsert(None))
    ));
    let empty: Vec<DnsRecord> = Vec::new();
    assert!(matches!(
        plan_cycle(&empty, "AAAA", &observed),
        Some(Decision::Upsert(None))
    ));
}

#[test]
fn empty_observed_address_plans_nothing() {
    let records = vec![record("r1", "home.example.com", "AAAA", "")];
    assert!(plan_cycle(&records, "AAAA", &String::new()).is_none());
}

#[test]
fn diff_policy_compares_exactly() {
    let rec = record("r1", "h", "AAAA", "2001:db8::1");
    assert!(matches!(diff_policy(Some(&rec), &"2001:db8::1".to_string()), Decision::Skip));
    // no normalisation: the same address written differently is stale
    assert!(matches!(
        diff_policy(Some(&rec), &"2001:0db8::1".to_string()),
        Decision::Upsert(Some(_))
    ));
    assert!(matches!(
        diff_policy(Some(&rec), &"2001:DB8::1".to_string()),
        Decision::Upsert(Some(_))
    ));
    assert!(matches!(
        diff_policy(None, &"2001:db8::1".to_string()),
        Decision::Upsert(None)
    ));
}

#[test]
fn find_record_of_type_takes_the_first() {
    let records = vec![
        record("a", "h", "A", "192.0.2.1"),
        record("b", "h", "AAAA", "2001:db8::1"),
        record("c", "h", "AAAA", "2001:db8::2"),
    ];
    assert_eq!(find_record_of_type(&records, "AAAA").unwrap().id, "b");
    assert_eq!(find_record_of_type(&records, "A").unwrap().id, "a");
    assert!(find_record_of_type(&records, "TXT").is_none());
}

#[test]
fn next_delay_multiplies_and_clamps() {
    assert_eq!(next_delay(2, 2, 60), 4);
    assert_eq!(next_delay(32, 2, 60), 60);
    assert_eq!(next_delay(60, 2, 60), 60);
    assert_eq!(next_delay(5, 3, 100), 15);
    assert_eq!(next_delay(u64::MAX, 2, 60), 60);
    assert_eq!(next_delay(u64::MAX / 2 + 1, 2, u64::MAX), u64::MAX);
    assert_eq!(next_delay(7, 0, 60), 0);
}

#[test]
fn backoff_grows_to_ceiling_and_stays() {
    let mut backoff = Backoff::standard();
    assert_eq!(backoff.delay(), INITIAL_DELAY);
    let mut seen = vec![backoff.delay()];
    for _ in 0..10 {
        backoff.record_outcome(&Decision::Skip);
        seen.push(backoff.delay());
    }
    assert_eq!(seen, vec![2, 4, 8, 16, 32, 60, 60, 60, 60, 60, 60]);
    assert_eq!(DELAY_FACTOR, 2);
    assert_eq!(MAX_DELAY, 60);
}

#[test]
fn backoff_kept_after_upsert() {
    let mut backoff = Backoff::new(8, 2, 60);
    backoff.record_outcome(&Decision::Upsert(None));
    assert_eq!(backoff.delay(), 8);
}

#[test]
fn fatal_errors() {
    assert!(is_fatal(DdnsError::Configuration));
    assert!(is_fatal(DdnsError::NotFound));
    assert!(!is_fatal(DdnsError::Network));
    assert!(!is_fatal(DdnsError::Decode));
}

#[test]
fn backoff_mixed_outcomes_stay_within_bounds() {
    let mut backoff = Backoff::standard();
    let mut previous = backoff.delay();
    for step in 0..40 {
        let decision = if step % 3 == 0 { Decision::Upsert(None) } else { Decision::Skip };
        backoff.record_outcome(&decision);
        let now = backoff.delay();
        assert!(previous <= now && now <= MAX_DELAY && now >= INITIAL_DELAY);
        previous = now;
    }
    assert_eq!(backoff.delay(), 60);
}
