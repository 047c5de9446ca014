use wt_workload::stats::{Stats, TimeStamp, STATS_WINDOW};

fn at(secs: i64) -> TimeStamp {
    TimeStamp { secs, nanos: 0 }
}

#[test]
fn starts_empty() {
    let s = Stats::new(at(5));
    assert!(s.samples().is_empty());
    assert_eq!(s.max_stat(), 0);
    assert_eq!(s.now(), at(5));
}

#[test]
fn stats_title() {
    let s = Stats::new(at(0));
    assert_eq!(s.title(), "WiredTiger Statistics");
}

#[test]
fn tick_at_same_instant_changes_nothing() {
    let mut s = Stats::new(at(5));
    assert!(!s.record(at(5), 42));
    assert!(s.samples().is_empty());
    assert_eq!(s.max_stat(), 0);
    assert!(s.record(at(6), 42));
    assert!(!s.record(at(6), 99));
    assert_eq!(s.samples(), vec![42]);
    assert_eq!(s.max_stat(), 42);
}

#[test]
fn instants_differing_in_nanos_are_distinct() {
    let mut s = Stats::new(TimeStamp { secs: 5, nanos: 0 });
    assert!(s.record(TimeStamp { secs: 5, nanos: 500_000_000 }, 3));
    assert_eq!(s.now(), TimeStamp { secs: 5, nanos: 500_000_000 });
}

#[test]
fn samples_kept_oldest_first_and_max_tracked() {
    let mut s = Stats::new(at(0));
    assert!(s.record(at(1), 10));
    assert!(s.record(at(2), 30));
    assert!(s.record(at(3), 20));
    assert_eq!(s.samples(), vec![10, 30, 20]);
    assert_eq!(s.max_stat(), 30);
}

#[test]
fn window_holds_last_two_hundred() {
    assert_eq!(STATS_WINDOW, 200);
    let mut s = Stats::new(at(0));
    for i in 1..=250u32 {
        assert!(s.record(at(i as i64), i));
    }
    let v = s.samples();
    assert_eq!(v.len(), 200);
    assert_eq!(v[0], 51);
    assert_eq!(v[199], 250);
    let expected: Vec<u32> = (51..=250).collect();
    assert_eq!(v, expected);
}

#[test]
fn max_remembers_evicted_samples() {
    let mut s = Stats::new(at(0));
    assert!(s.record(at(1), u32::MAX));
    for i in 2..=202i64 {
        assert!(s.record(at(i), 1));
    }
    let v = s.samples();
    assert_eq!(v.len(), 200);
    assert!(v.iter().all(|&x| x == 1));
    assert_eq!(s.max_stat(), u32::MAX);
}

#[test]
fn exactly_full_window_keeps_first_sample() {
    let mut s = Stats::new(at(0));
    for i in 1..=200u32 {
        s.record(at(i as i64), i);
    }
    assert_eq!(s.samples().len(), 200);
    assert_eq!(s.samples()[0], 1);
    s.record(at(201), 201);
    assert_eq!(s.samples()[0], 2);
    assert_eq!(s.samples()[199], 201);
}

#[test]
fn update_samples_only_on_a_new_instant() {
    let mut s = Stats::new(at(0));
    assert!(!s.update(at(0)));
    assert!(s.samples().is_empty());
    assert!(s.update(at(1)));
    let v = s.samples();
    assert!(s.max_stat() >= v[0]);
    assert_eq!(v.len(), 1);
    assert!(!s.update(at(1)));
    assert_eq!(s.samples().len(), 1);
    assert_eq!(s.now(), at(1));
}

#[test]
fn repeated_tick_keeps_maximum() {
    let mut s = Stats::new(at(0));
    assert!(s.record(at(1), 50));
    assert!(!s.record(at(1), 90));
    assert_eq!(s.max_stat(), 50);
    assert!(s.record(at(2), 20));
    assert_eq!(s.max_stat(), 50);
    assert!(s.record(at(3), 70));
    assert_eq!(s.max_stat(), 70);
}
