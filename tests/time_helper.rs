use session_planner::time_helper::{now, DateTime, TimeHelpers, Weekday};

fn amsterdam(year: i32, month: u32, day: u32, hour: u32, minute: u32, second: u32) -> DateTime {
    DateTime::from_ymd_hms(year, month, day, hour, minute, second).unwrap()
}

#[test]
fn next_weekday() {
    let now = amsterdam(2023, 8, 2, 10, 0, 0);
    let invitation_time = now.next_weekday(Weekday::Thu);
    assert_eq!(invitation_time, amsterdam(2023, 8, 3, 10, 0, 0));

    let now = amsterdam(2023, 8, 3, 10, 0, 0);
    let invitation_time = now.next_weekday(Weekday::Thu);
    assert_eq!(invitation_time, amsterdam(2023, 8, 10, 10, 0, 0));
}

#[test]
fn next_invitation() {
    let now = amsterdam(2023, 7, 30, 12, 12, 12);
    let invitation_time = now.next_invitation_time();
    assert_eq!(invitation_time, amsterdam(2023, 8, 1, 10, 0, 0));

    let now = amsterdam(2023, 8, 1, 10, 0, 1);
    let invitation_time = now.next_invitation_time();
    assert_eq!(invitation_time, amsterdam(2023, 8, 8, 10, 0, 0));
}

#[test]
fn next_session() {
    let now = amsterdam(2023, 8, 2, 10, 0, 0);
    assert_eq!(now.next_session_date(), amsterdam(2023, 8, 17, 19, 0, 0));
}

#[test]
fn day_numbers_follow_chrono() {
    assert_eq!(amsterdam(1, 1, 1, 0, 0, 0).day, 1);
    assert_eq!(amsterdam(1970, 1, 1, 0, 0, 0).day, 719_163);
    assert_eq!(amsterdam(2024, 3, 1, 0, 0, 0).day - amsterdam(2024, 2, 28, 0, 0, 0).day, 2);
}

#[test]
fn from_ymd_hms_rejects_invalid_fields() {
    assert_eq!(DateTime::from_ymd_hms(2023, 2, 29, 10, 0, 0), None);
    assert_eq!(DateTime::from_ymd_hms(2023, 13, 1, 10, 0, 0), None);
    assert_eq!(DateTime::from_ymd_hms(2023, 8, 1, 24, 0, 0), None);
    assert_eq!(DateTime::from_ymd_hms(2023, 8, 1, 10, 60, 0), None);
    assert_eq!(DateTime::from_ymd_hms(2023, 8, 1, 10, 0, 60), None);
    let t = amsterdam(2023, 8, 1, 10, 20, 30);
    assert_eq!((t.hour, t.minute, t.second, t.nanosecond), (10, 20, 30, 0));
}

#[test]
fn weekdays_of_known_dates() {
    assert_eq!(amsterdam(1, 1, 1, 0, 0, 0).weekday(), Weekday::Mon);
    assert_eq!(amsterdam(1970, 1, 1, 0, 0, 0).weekday(), Weekday::Thu);
    assert_eq!(amsterdam(2023, 7, 30, 0, 0, 0).weekday(), Weekday::Sun);
    assert_eq!(amsterdam(2023, 8, 1, 0, 0, 0).weekday(), Weekday::Tue);
    assert_eq!(amsterdam(-1, 12, 31, 0, 0, 0).weekday(), Weekday::Fri);
}

#[test]
fn next_weekday_always_lands_on_target_and_advances() {
    let start = amsterdam(2023, 7, 30, 23, 59, 59);
    let targets = [
        Weekday::Mon,
        Weekday::Tue,
        Weekday::Wed,
        Weekday::Thu,
        Weekday::Fri,
        Weekday::Sat,
        Weekday::Sun,
    ];
    for (i, w) in targets.iter().enumerate() {
        let r = start.next_weekday(*w);
        assert_eq!(r.weekday(), *w);
        assert!(r.is_later_than(&start));
        assert_eq!(r.day - start.day, if i == 6 { 7 } else { i as i32 + 1 });
        assert_eq!((r.hour, r.minute, r.second), (23, 59, 59));
    }
}

#[test]
fn next_weekday_crosses_year_end() {
    let t = amsterdam(2023, 12, 29, 8, 0, 0);
    assert_eq!(t.next_weekday(Weekday::Tue), amsterdam(2024, 1, 2, 8, 0, 0));
}

#[test]
fn invitation_at_exact_reminder_time_moves_a_week() {
    let t = amsterdam(2023, 8, 1, 10, 0, 0);
    assert_eq!(t.next_invitation_time(), amsterdam(2023, 8, 8, 10, 0, 0));
    let early = amsterdam(2023, 8, 1, 9, 59, 59);
    assert_eq!(early.next_invitation_time(), amsterdam(2023, 8, 8, 10, 0, 0));
}

#[test]
fn invitation_recomputed_after_firing_is_a_week_later() {
    let t = amsterdam(2023, 7, 30, 12, 12, 12);
    let first = t.next_invitation_time();
    let second = first.next_invitation_time();
    assert_eq!(second, first.add_days(7));
    assert_eq!(second, amsterdam(2023, 8, 8, 10, 0, 0));
}

#[test]
fn invitation_is_tuesday_ten_for_a_whole_week() {
    let start = amsterdam(2023, 10, 23, 0, 0, 0);
    for d in 0..8 {
        let t = start.add_days(d).with_time(13, 30, 0);
        let r = t.next_invitation_time();
        assert_eq!(r.weekday(), Weekday::Tue);
        assert_eq!((r.hour, r.minute, r.second, r.nanosecond), (10, 0, 0, 0));
        assert!(r.is_later_than(&t));
    }
}

#[test]
fn session_is_thursday_evening_two_weeks_out() {
    let start = amsterdam(2023, 8, 2, 22, 0, 0);
    for d in 0..7 {
        let t = start.add_days(d);
        let r = t.next_session_date();
        assert_eq!(r.weekday(), Weekday::Thu);
        assert_eq!((r.hour, r.minute, r.second, r.nanosecond), (19, 0, 0, 0));
        let days = r.day - t.day;
        assert!((15..=21).contains(&days));
    }
    let wed_late = amsterdam(2023, 8, 2, 23, 0, 0);
    assert_eq!(wed_late.next_session_date(), amsterdam(2023, 8, 17, 19, 0, 0));
    let thu_morning = amsterdam(2023, 8, 3, 9, 0, 0);
    assert_eq!(thu_morning.next_session_date(), amsterdam(2023, 8, 24, 19, 0, 0));
}

#[test]
fn later_than_orders_by_every_field() {
    let t = amsterdam(2023, 8, 1, 10, 0, 0);
    assert!(!t.is_later_than(&t));
    assert!(amsterdam(2023, 8, 2, 0, 0, 0).is_later_than(&amsterdam(2023, 8, 1, 23, 59, 59)));
    assert!(amsterdam(2023, 8, 1, 10, 0, 1).is_later_than(&t));
    assert!(!amsterdam(2023, 8, 1, 9, 59, 59).is_later_than(&t));
    let fraction = DateTime::from_clock(t.day, 10, 0, 0, 1);
    assert!(fraction.is_later_than(&t));
}

#[test]
fn from_clock_holds_leap_fraction() {
    let t = DateTime::from_clock(738_000, 23, 59, 59, 1_500_000_000);
    assert_eq!(t.nanosecond, 999_999_999);
    let u = DateTime::from_clock(738_000, 23, 59, 59, 123);
    assert_eq!(u.nanosecond, 123);
    assert_eq!((u.day, u.hour, u.minute, u.second), (738_000, 23, 59, 59));
}

#[test]
fn now_is_a_valid_recent_reading() {
    let t = now();
    assert!(t.hour < 24 && t.minute < 60 && t.second < 60 && t.nanosecond < 1_000_000_000);
    assert!(t.day > amsterdam(2023, 1, 1, 0, 0, 0).day);
}
