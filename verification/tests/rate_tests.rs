use ukhasnet_influxdb::rate::{rate_line, update_packets_per_min, RateCounter};

#[test]
fn rate_of_a_minute_is_reported_when_the_next_begins() {
    let mut counter = RateCounter::new();
    let mut reports = Vec::new();
    for _ in 0..5 {
        reports.push(counter.meter(17));
    }
    for _ in 0..3 {
        reports.push(counter.meter(18));
    }
    let expected: Vec<Option<String>> = vec![
        None,
        None,
        None,
        None,
        None,
        Some("packets_per_minute rate=5i".to_string()),
        None,
        None,
    ];
    assert_eq!(reports, expected);
    assert_eq!(counter, RateCounter { count: 3, minute: Some(18) });
}

#[test]
fn first_minute_is_not_reported() {
    let mut counter = RateCounter::new();
    assert_eq!(counter, RateCounter { count: 0, minute: None });
    assert_eq!(counter.observe(42), None);
    assert_eq!(counter, RateCounter { count: 1, minute: Some(42) });
    assert_eq!(counter.observe(42), None);
    assert_eq!(counter, RateCounter { count: 2, minute: Some(42) });
}

#[test]
fn each_change_of_minute_reports_the_minute_before() {
    let mut counter = RateCounter::new();
    assert_eq!(counter.observe(59), None);
    assert_eq!(counter.observe(0), Some(1));
    assert_eq!(counter.observe(0), None);
    assert_eq!(counter.observe(1), Some(2));
    assert_eq!(counter.observe(59), Some(1));
    assert_eq!(counter, RateCounter { count: 1, minute: Some(59) });
}

#[test]
fn full_count_is_reported_when_the_minute_changes() {
    let mut counter = RateCounter { count: u32::MAX, minute: Some(3) };
    assert_eq!(counter.meter(4), Some("packets_per_minute rate=4294967295i".to_string()));
    assert_eq!(counter, RateCounter { count: 1, minute: Some(4) });
}

#[test]
fn rate_line_is_an_integer_field() {
    assert_eq!(rate_line(0), "packets_per_minute rate=0i");
    assert_eq!(rate_line(7), "packets_per_minute rate=7i");
    assert_eq!(rate_line(120), "packets_per_minute rate=120i");
    assert_eq!(rate_line(u32::MAX), "packets_per_minute rate=4294967295i");
}

#[test]
fn clock_gives_a_minute_of_the_hour() {
    let mut counter = RateCounter::new();
    assert_eq!(update_packets_per_min(&mut counter), None);
    assert_eq!(counter.count, 1);
    let minute = counter.minute.unwrap();
    assert!(0 <= minute && minute <= 59);
    let next = update_packets_per_min(&mut counter);
    match next {
        None => assert_eq!(counter.count, 2),
        Some(line) => {
            assert_eq!(line, "packets_per_minute rate=1i");
            assert_eq!(counter.count, 1);
        }
    }
}
