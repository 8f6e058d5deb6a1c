use dns_updater::{
    apply_upsert, full_record_name, get_current_ip, get_my_ip, interval_from_secs, parse_interval,
    reconcile_step, update_ip, Action, Config, Event, RecordSet, RecordType, TickOutcome, TickState,
    UpdateError, RECORD_TTL,
};

fn set(name: &str, record_type: RecordType, values: &[&str]) -> RecordSet {
    RecordSet {
        name: name.to_string(),
        record_type,
        ttl: Some(60),
        values: values.iter().map(|v| v.to_string()).collect(),
    }
}

/// Runs one tick against an in-memory zone, performing each action the way
/// a caller would, and returns the values written and the outcome.
fn run_tick(zone: &mut Vec<RecordSet>, name: &String, resolved: Result<String, UpdateError>) -> (Vec<String>, TickOutcome) {
    let mut writes = Vec::new();
    let (mut state, mut action) = reconcile_step(TickState::Idle, Event::TimerFired);
    loop {
        let event = match action {
            Action::ResolveIp => Event::IpResolved(resolved.clone()),
            Action::ReadRecord => Event::RecordRead(get_current_ip(zone, name)),
            Action::Write { value } => {
                writes.push(value.clone());
                apply_upsert(zone, update_ip(name, &value));
                Event::WriteDone(Ok(()))
            }
            Action::Finish(outcome) => return (writes, outcome),
            Action::Ignore => panic!("unexpected event"),
        };
        let (next_state, next_action) = reconcile_step(state, event);
        state = next_state;
        action = next_action;
    }
}

#[test]
fn record_name_gets_trailing_dot() {
    assert_eq!(full_record_name("home.example.com"), "home.example.com.");
    assert_eq!(full_record_name(""), ".");
}

#[test]
fn current_ip_is_first_value_of_matching_set_trimmed() {
    let sets = vec![
        set("example.com.", RecordType::Cname, &["target.example.net."]),
        set("example.com.", RecordType::A, &[" 10.0.0.1\n", "10.0.0.9"]),
        set("example.com.", RecordType::A, &["10.0.0.5"]),
    ];
    let name = "example.com.".to_string();
    assert_eq!(get_current_ip(&sets, &name), Ok("10.0.0.1".to_string()));
}

#[test]
fn current_ip_not_found_on_name_mismatch() {
    let sets = vec![set("other.com.", RecordType::A, &["10.0.0.1"])];
    let name = "example.com.".to_string();
    assert_eq!(get_current_ip(&sets, &name), Err(UpdateError::RecordNotFound));
}

#[test]
fn current_ip_not_found_on_type_mismatch() {
    let sets = vec![set("example.com.", RecordType::Cname, &["10.0.0.1"])];
    let name = "example.com.".to_string();
    assert_eq!(get_current_ip(&sets, &name), Err(UpdateError::RecordNotFound));
}

#[test]
fn current_ip_not_found_in_empty_list() {
    let name = "example.com.".to_string();
    assert_eq!(get_current_ip(&Vec::new(), &name), Err(UpdateError::RecordNotFound));
}

#[test]
fn relative_name_does_not_match_absolute_record() {
    let sets = vec![set("example.com.", RecordType::A, &["10.0.0.1"])];
    let name = "example.com".to_string();
    assert_eq!(get_current_ip(&sets, &name), Err(UpdateError::RecordNotFound));
}

#[test]
fn current_ip_value_not_found_when_set_is_empty() {
    let sets = vec![
        set("example.com.", RecordType::A, &[]),
        set("example.com.", RecordType::A, &["10.0.0.1"]),
    ];
    let name = "example.com.".to_string();
    assert_eq!(get_current_ip(&sets, &name), Err(UpdateError::ValueNotFound));
}

#[test]
fn update_writes_one_a_value_with_fixed_ttl() {
    let name = "example.com.".to_string();
    let change = update_ip(&name, "10.0.0.2");
    assert_eq!(change.record_set.name, "example.com.");
    assert_eq!(change.record_set.record_type, RecordType::A);
    assert_eq!(change.record_set.ttl, Some(300));
    assert_eq!(RECORD_TTL, 300);
    assert_eq!(change.record_set.values, vec!["10.0.0.2".to_string()]);
}

#[test]
fn upsert_then_read_replaces_existing_value() {
    let mut zone = vec![
        set("other.com.", RecordType::A, &["10.9.9.9"]),
        set("example.com.", RecordType::A, &["10.0.0.1", "10.0.0.7"]),
    ];
    let name = "example.com.".to_string();
    apply_upsert(&mut zone, update_ip(&name, "10.0.0.2"));
    assert_eq!(zone.len(), 2);
    assert_eq!(zone[1].values, vec!["10.0.0.2".to_string()]);
    assert_eq!(zone[1].ttl, Some(300));
    assert_eq!(get_current_ip(&zone, &name), Ok("10.0.0.2".to_string()));
    let other = "other.com.".to_string();
    assert_eq!(get_current_ip(&zone, &other), Ok("10.9.9.9".to_string()));
}

#[test]
fn upsert_then_read_creates_missing_record() {
    let mut zone = vec![set("example.com.", RecordType::Txt, &["hello"])];
    let name = "example.com.".to_string();
    apply_upsert(&mut zone, update_ip(&name, "192.168.1.1"));
    assert_eq!(zone.len(), 2);
    assert_eq!(get_current_ip(&zone, &name), Ok("192.168.1.1".to_string()));
}

#[test]
fn my_ip_is_trimmed_body_on_success() {
    assert_eq!(get_my_ip(200, Some("203.0.113.7\n")), Ok("203.0.113.7".to_string()));
    assert_eq!(get_my_ip(299, Some("  203.0.113.7  ")), Ok("203.0.113.7".to_string()));
}

#[test]
fn my_ip_fails_on_error_status() {
    assert_eq!(get_my_ip(404, Some("203.0.113.7")), Err(UpdateError::Network));
    assert_eq!(get_my_ip(503, Some("")), Err(UpdateError::Network));
    assert_eq!(get_my_ip(199, Some("203.0.113.7")), Err(UpdateError::Network));
    assert_eq!(get_my_ip(300, Some("203.0.113.7")), Err(UpdateError::Network));
}

#[test]
fn my_ip_fails_on_unreadable_body() {
    assert_eq!(get_my_ip(200, None), Err(UpdateError::Network));
}

#[test]
fn interval_beyond_32_bits_is_config_error() {
    assert_eq!(interval_from_secs(1_000_000_000_000), Err(UpdateError::Config));
    assert_eq!(interval_from_secs(4_294_967_296), Err(UpdateError::Config));
    assert_eq!(interval_from_secs(4_294_967_295), Ok(u32::MAX));
    assert_eq!(interval_from_secs(5), Ok(5));
}

#[test]
fn config_rejects_oversized_interval() {
    let r = Config::new("Z123".to_string(), "example.com", "1000000000000s", false);
    assert!(matches!(r, Err(UpdateError::Config)));
}

#[test]
fn config_normalises_record_name() {
    let c = Config::new("Z123".to_string(), "example.com", "5min", true).unwrap();
    assert_eq!(c.hosted_zone_id, "Z123");
    assert_eq!(c.full_record_name, "example.com.");
    assert_eq!(c.interval_seconds, 300);
    assert!(c.verbose);
}

#[test]
fn interval_text_is_parsed_with_units() {
    assert_eq!(parse_interval("5s"), Ok(5));
    assert_eq!(parse_interval("2h 37min"), Ok(9420));
    assert_eq!(parse_interval("1500ms"), Ok(1));
    assert_eq!(parse_interval("1000000000000s"), Err(UpdateError::Config));
    assert_eq!(parse_interval("five seconds"), Err(UpdateError::Config));
}

#[test]
fn tick_with_equal_values_does_not_write() {
    let name = "example.com.".to_string();
    let mut zone = vec![set("example.com.", RecordType::A, &["10.0.0.1"])];
    let (writes, outcome) = run_tick(&mut zone, &name, Ok("10.0.0.1".to_string()));
    assert!(writes.is_empty());
    assert!(matches!(outcome, TickOutcome::Unchanged { ip } if ip == "10.0.0.1"));
}

#[test]
fn tick_with_different_values_writes_once() {
    let name = "example.com.".to_string();
    let mut zone = vec![set("example.com.", RecordType::A, &["10.0.0.1"])];
    let (writes, outcome) = run_tick(&mut zone, &name, Ok("10.0.0.3".to_string()));
    assert_eq!(writes, vec!["10.0.0.3".to_string()]);
    assert!(matches!(outcome, TickOutcome::Updated { ip } if ip == "10.0.0.3"));
}

#[test]
fn end_to_end_update_then_steady_state() {
    let name = full_record_name("example.com");
    let mut zone = vec![set("example.com.", RecordType::A, &["10.0.0.1"])];
    let (writes, outcome) = run_tick(&mut zone, &name, Ok("10.0.0.2".to_string()));
    assert_eq!(writes, vec!["10.0.0.2".to_string()]);
    assert!(matches!(outcome, TickOutcome::Updated { .. }));
    assert_eq!(zone[0].record_type, RecordType::A);
    assert_eq!(zone[0].ttl, Some(300));
    assert_eq!(get_current_ip(&zone, &name), Ok("10.0.0.2".to_string()));
    let (writes, outcome) = run_tick(&mut zone, &name, Ok("10.0.0.2".to_string()));
    assert!(writes.is_empty());
    assert!(matches!(outcome, TickOutcome::Unchanged { .. }));
}

#[test]
fn tick_failures_are_reported() {
    let name = "example.com.".to_string();
    let mut zone = vec![set("example.com.", RecordType::A, &["10.0.0.1"])];
    let (writes, outcome) = run_tick(&mut zone, &name, Err(UpdateError::Network));
    assert!(writes.is_empty());
    assert!(matches!(outcome, TickOutcome::Failed(UpdateError::Network)));
    let mut empty = Vec::new();
    let (writes, outcome) = run_tick(&mut empty, &name, Ok("10.0.0.1".to_string()));
    assert!(writes.is_empty());
    assert!(matches!(outcome, TickOutcome::Failed(UpdateError::RecordNotFound)));
}

#[test]
fn failed_write_ends_tick_with_provider_error() {
    let (s, a) = reconcile_step(TickState::AwaitingRecord { target: "10.0.0.2".to_string() }, Event::RecordRead(Ok("10.0.0.1".to_string())));
    assert!(matches!(a, Action::Write { ref value } if value == "10.0.0.2"));
    let (s, a) = reconcile_step(s, Event::WriteDone(Err(UpdateError::Provider)));
    assert!(matches!(s, TickState::Idle));
    assert!(matches!(a, Action::Finish(TickOutcome::Failed(UpdateError::Provider))));
}

#[test]
fn out_of_order_events_are_ignored() {
    let (s, a) = reconcile_step(TickState::Idle, Event::WriteDone(Ok(())));
    assert!(matches!(s, TickState::Idle));
    assert!(matches!(a, Action::Ignore));
    let (s, a) = reconcile_step(TickState::AwaitingIp, Event::TimerFired);
    assert!(matches!(s, TickState::AwaitingIp));
    assert!(matches!(a, Action::Ignore));
}

#[test]
fn only_startup_failure_ends_process() {
    assert!(TickOutcome::Failed(UpdateError::Network).ends_process(true));
    assert!(!TickOutcome::Failed(UpdateError::Network).ends_process(false));
    assert!(!TickOutcome::Updated { ip: "10.0.0.2".to_string() }.ends_process(true));
}

#[test]
fn error_messages_are_not_empty() {
    assert_eq!(UpdateError::RecordNotFound.message(), "Record not found");
    assert!(!UpdateError::Config.message().is_empty());
}

#[test]
fn interval_with_too_many_digits_is_config_error() {
    assert_eq!(parse_interval("18446744073709551615s 1000ms"), Err(UpdateError::Config));
    assert_eq!(parse_interval("999999999999ns"), Err(UpdateError::Config));
    assert_eq!(parse_interval("99999999999s"), Err(UpdateError::Config));
    assert_eq!(parse_interval("4294967295s"), Ok(u32::MAX));
    assert_eq!(parse_interval("1h 1m 1s"), Ok(3661));
}

#[test]
fn my_ip_trims_unicode_white_space() {
    assert_eq!(get_my_ip(200, Some("\u{a0}\t198.51.100.4\u{3000}\r\n")), Ok("198.51.100.4".to_string()));
    assert_eq!(get_my_ip(200, Some(" \n ")), Ok(String::new()));
}
