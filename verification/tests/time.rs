use automagic::time::{
    run_at_delay, time_is_between, time_of_day_is_between, Daily, DailyDecision, Date, Delay,
    Schedule, SignedSpan, TimeOfDay, Weekday,
};

fn at(y: i32, mo: u32, d: u32, h: u32, mi: u32, s: u32) -> automagic::time::LocalDateTime {
    Date::from_ymd_opt(y, mo, d).unwrap().and_hms_opt(h, mi, s).unwrap()
}

#[test]
fn test_time_is_between() {
    let start = Date::from_ymd_opt(2020, 03, 14)
        .unwrap()
        .and_hms_opt(0, 0, 0)
        .unwrap();
    let end = Date::from_ymd_opt(2020, 03, 14)
        .unwrap()
        .and_hms_opt(0, 0, 2)
        .unwrap();
    let test_time = TimeOfDay::from_hms_milli_opt(0, 0, 1, 0).unwrap();

    assert!(time_is_between(start, end, test_time));

    let test_time = TimeOfDay::from_hms_milli_opt(0, 0, 2, 0).unwrap();

    assert!(time_is_between(start, end, test_time));

    let test_time = TimeOfDay::from_hms_milli_opt(0, 0, 3, 0).unwrap();

    assert!(!time_is_between(start, end, test_time));
}

#[test]
fn test_time_is_between_across_midnight() {
    let start = Date::from_ymd_opt(2020, 03, 14)
        .unwrap()
        .and_hms_opt(23, 59, 59)
        .unwrap();
    let end = Date::from_ymd_opt(2020, 03, 15)
        .unwrap()
        .and_hms_opt(0, 0, 1)
        .unwrap();
    let test_time = TimeOfDay::from_hms_milli_opt(0, 0, 0, 0).unwrap();

    assert!(time_is_between(start, end, test_time));
}

#[test]
fn start_of_window_is_excluded() {
    let start = at(2020, 3, 14, 8, 0, 0);
    let end = at(2020, 3, 14, 8, 0, 1);
    assert!(!time_is_between(start, end, TimeOfDay::from_hms_opt(8, 0, 0).unwrap()));
    assert!(time_is_between(start, end, TimeOfDay::from_hms_milli_opt(8, 0, 0, 500).unwrap()));
}

#[test]
fn still_window_holds_nothing() {
    let t = TimeOfDay::from_hms_opt(12, 30, 0).unwrap();
    assert!(!time_of_day_is_between(t, t, t));
    assert!(!time_of_day_is_between(t, t, TimeOfDay::from_hms_opt(0, 0, 0).unwrap()));
}

#[test]
fn window_split_by_a_tick() {
    let a = TimeOfDay::from_hms_opt(10, 0, 0).unwrap();
    let b = TimeOfDay::from_hms_opt(10, 0, 5).unwrap();
    let c = TimeOfDay::from_hms_opt(10, 0, 9).unwrap();
    for s in 0..12 {
        let t = TimeOfDay::from_hms_opt(10, 0, s).unwrap();
        let whole = time_of_day_is_between(a, c, t);
        let first = time_of_day_is_between(a, b, t);
        let second = time_of_day_is_between(b, c, t);
        assert_eq!(whole, first || second);
        assert!(!(first && second));
    }
}

#[test]
fn wrapped_window_misses_times_before_midnight() {
    let start = at(2020, 3, 14, 23, 59, 58);
    let end = at(2020, 3, 15, 0, 0, 1);
    assert!(!time_is_between(start, end, TimeOfDay::from_hms_opt(23, 59, 59).unwrap()));
}

#[test]
fn times_of_day_from_parts() {
    assert_eq!(TimeOfDay::from_hms_opt(1, 2, 3), Some(TimeOfDay { secs: 3723, nanos: 0 }));
    assert_eq!(TimeOfDay::from_hms_opt(24, 0, 0), None);
    assert_eq!(TimeOfDay::from_hms_opt(0, 60, 0), None);
    assert_eq!(TimeOfDay::from_hms_opt(0, 0, 60), None);
    assert_eq!(
        TimeOfDay::from_hms_milli_opt(23, 59, 59, 1500),
        Some(TimeOfDay { secs: 86399, nanos: 1_500_000_000 })
    );
    assert_eq!(TimeOfDay::from_hms_milli_opt(23, 59, 58, 1500), None);
    assert_eq!(TimeOfDay::from_hms_milli_opt(0, 0, 0, 2000), None);
    assert_eq!(TimeOfDay::from_hms_milli_opt(0, 0, 0, 5_000_000), None);
}

#[test]
fn calendar_dates() {
    assert!(Date::from_ymd_opt(2015, 3, 14).is_some());
    assert!(Date::from_ymd_opt(2015, 0, 14).is_none());
    assert!(Date::from_ymd_opt(2015, 2, 29).is_none());
    assert!(Date::from_ymd_opt(2016, 2, 29).is_some());
    assert!(Date::from_ymd_opt(1900, 2, 29).is_none());
    assert!(Date::from_ymd_opt(2000, 2, 29).is_some());
    assert!(Date::from_ymd_opt(-4, 2, 29).is_some());
    assert!(Date::from_ymd_opt(2015, 4, 31).is_none());
    assert!(Date::from_ymd_opt(2015, 3, 0).is_none());
    assert!(Date::from_ymd_opt(2015, 13, 1).is_none());
    assert!(Date::from_ymd_opt(400000, 1, 1).is_none());
    assert!(Date::from_ymd_opt(-400000, 1, 1).is_none());
    assert!(Date::from_ymd_opt(262142, 12, 31).is_some());
    assert!(Date::from_ymd_opt(-262143, 1, 1).is_some());
}

#[test]
fn weekdays_of_dates() {
    assert_eq!(Date::from_ymd_opt(2020, 3, 14).unwrap().weekday(), Weekday::Sat);
    assert_eq!(Date::from_ymd_opt(1970, 1, 1).unwrap().weekday(), Weekday::Thu);
    assert_eq!(Date::from_ymd_opt(2000, 2, 29).unwrap().weekday(), Weekday::Tue);
    assert_eq!(Date::from_ymd_opt(2024, 12, 30).unwrap().weekday(), Weekday::Mon);
    assert_eq!(Date::from_ymd_opt(-1, 12, 31).unwrap().weekday(), Weekday::Fri);
}

#[test]
fn daily_fires_when_its_time_passes() {
    let time = TimeOfDay::from_hms_opt(7, 30, 0).unwrap();
    let mut daily = Daily::new(at(2020, 3, 14, 7, 29, 59), time, None);
    assert_eq!(daily.tick(at(2020, 3, 14, 7, 29, 59)), DailyDecision::Wait);
    assert_eq!(daily.tick(at(2020, 3, 14, 7, 30, 0)), DailyDecision::Fire);
    assert_eq!(daily.last_tick, at(2020, 3, 14, 7, 30, 0));
    assert_eq!(daily.tick(at(2020, 3, 14, 7, 30, 1)), DailyDecision::Wait);
}

#[test]
fn daily_respects_its_weekdays() {
    let time = TimeOfDay::from_hms_opt(7, 30, 0).unwrap();
    let weekend = Some(vec![Weekday::Sat, Weekday::Sun]);
    let mut daily = Daily::new(at(2020, 3, 13, 7, 29, 59), time, weekend);
    // 2020-03-13 was a Friday.
    assert_eq!(daily.tick(at(2020, 3, 13, 7, 30, 0)), DailyDecision::SkipWeekday);
    daily.last_tick = at(2020, 3, 14, 7, 29, 59);
    // 2020-03-14 was a Saturday.
    assert_eq!(daily.tick(at(2020, 3, 14, 7, 30, 0)), DailyDecision::Fire);
    let mut never = Daily::new(at(2020, 3, 14, 7, 29, 59), time, Some(vec![]));
    assert_eq!(never.tick(at(2020, 3, 14, 7, 30, 0)), DailyDecision::SkipWeekday);
}

#[test]
fn run_at_waits_until_the_moment() {
    assert_eq!(
        run_at_delay(SignedSpan { secs: 5, nanos: 250 }),
        Schedule { delay: Delay { secs: 5, nanos: 250 }, late: false }
    );
    assert_eq!(
        run_at_delay(SignedSpan { secs: 0, nanos: 0 }),
        Schedule { delay: Delay { secs: 0, nanos: 0 }, late: false }
    );
    assert_eq!(
        run_at_delay(SignedSpan { secs: -1, nanos: 999_999_999 }),
        Schedule { delay: Delay { secs: 0, nanos: 0 }, late: true }
    );
}

#[test]
fn spans_from_rounded_parts() {
    assert_eq!(SignedSpan::from_parts(5, 250), SignedSpan { secs: 5, nanos: 250 });
    assert_eq!(SignedSpan::from_parts(0, -1), SignedSpan { secs: -1, nanos: 999_999_999 });
    assert_eq!(SignedSpan::from_parts(-3, -500_000_000), SignedSpan { secs: -4, nanos: 500_000_000 });
    assert_eq!(SignedSpan::from_parts(-3, 0), SignedSpan { secs: -3, nanos: 0 });
}

#[test]
fn daily_fires_once_across_midnight() {
    // ticks two hours apart from 22:00 to 04:00: the midnight occurrence fires once
    let time = TimeOfDay::from_hms_opt(0, 0, 0).unwrap();
    let ticks = [
        at(2020, 3, 14, 22, 0, 0),
        at(2020, 3, 15, 0, 0, 0),
        at(2020, 3, 15, 2, 0, 0),
        at(2020, 3, 15, 4, 0, 0),
    ];
    let mut daily = Daily::new(ticks[0], time, None);
    let fired: Vec<DailyDecision> = ticks[1..].iter().map(|t| daily.tick(*t)).collect();
    assert_eq!(fired, vec![DailyDecision::Fire, DailyDecision::Wait, DailyDecision::Wait]);
}
