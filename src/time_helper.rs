//! Calendar arithmetic for the weekly reminder and the session it announces.
//!
//! A [`DateTime`] is a wall-clock reading in the Europe/Amsterdam time zone:
//! a day number (days of the proleptic Gregorian calendar, 0001-01-01 being
//! day 1) and a time of day. Days advance one calendar day at a time.
use chrono::{Datelike, Timelike};
use vstd::prelude::*;
use vstd::arithmetic::div_mod::{lemma_add_mod_noop, lemma_mod_multiples_vanish};

verus! {

/// Nanoseconds in one calendar day of the wall clock.
pub open spec fn nanos_per_day() -> int {
    (86_400 * 1_000_000_000) as int
}

/// Day of the week, Monday first.
#[derive(Clone, Copy, Debug, PartialEq, Eq, Structural)]
pub enum Weekday {
    Mon,
    Tue,
    Wed,
    Thu,
    Fri,
    Sat,
    Sun,
}

impl Weekday {
    /// Position in the week: Monday is 0, Sunday is 6.
    pub open spec fn index(self) -> int {
        match self {
            Weekday::Mon => 0,
            Weekday::Tue => 1,
            Weekday::Wed => 2,
            Weekday::Thu => 3,
            Weekday::Fri => 4,
            Weekday::Sat => 5,
            Weekday::Sun => 6,
        }
    }

    pub open spec fn from_index(i: int) -> Weekday {
        if i == 0 {
            Weekday::Mon
        } else if i == 1 {
            Weekday::Tue
        } else if i == 2 {
            Weekday::Wed
        } else if i == 3 {
            Weekday::Thu
        } else if i == 4 {
            Weekday::Fri
        } else if i == 5 {
            Weekday::Sat
        } else {
            Weekday::Sun
        }
    }
}

/// Weekday of a day number: day 1 (0001-01-01) was a Monday.
pub open spec fn weekday_of_day(day: int) -> Weekday {
    Weekday::from_index((day - 1) % 7)
}

/// How many days after `day` the next day on weekday `w` comes: between one and
/// seven, seven when `day` itself falls on `w`.
pub open spec fn days_until(day: int, w: Weekday) -> int {
    let d = (w.index() - (day - 1) % 7) % 7;
    if d == 0 {
        7
    } else {
        d
    }
}


/// The facts about [`days_until`] that the day-by-day search relies on.
pub proof fn lemma_days_until(day: int, w: Weekday)
    ensures
        1 <= days_until(day, w) <= 7,
        weekday_of_day(day + days_until(day, w)) == w,
        forall|k: int| 0 < k < days_until(day, w) ==> #[trigger] weekday_of_day(day + k) != w,
        weekday_of_day(day) == w <==> days_until(day, w) == 7,
{
    let i = (day - 1) % 7;
    assert forall|k: int| 0 <= k <= 7 implies #[trigger] ((day + k - 1) % 7) == (i + k) % 7 by {
        lemma_add_mod_noop(day - 1, k, 7);
        assert(k % 7 == k || k == 7);
        if k == 7 {
            lemma_mod_multiples_vanish(1, day - 1, 7);
        }
    }
    assert(((day - 1) + days_until(day, w)) % 7 == (i + days_until(day, w)) % 7);
}

/// chrono's day number of the calendar date `year-month-day`; `None` where
/// that date does not exist or lies outside chrono's range of years.
pub uninterp spec fn day_number_of(year: int, month: int, day: int) -> Option<i32>;

/// Relies on `chrono::NaiveDate::from_ymd_opt` to check the date and on
/// `Datelike::num_days_from_ce` for its day number (0001-01-01 is day 1).
#[verifier::external_body]
fn day_number(year: i32, month: u32, day: u32) -> (r: Option<i32>)
    ensures
        r == day_number_of(year as int, month as int, day as int),
        month < 1 || month > 12 || day < 1 || day > 31 ==> r.is_none(),
{
    match chrono::NaiveDate::from_ymd_opt(year, month, day) {
        Some(date) => Some(date.num_days_from_ce()),
        None => None,
    }
}

/// Relies on `chrono::Utc::now` for the current time and on `chrono_tz` for
/// its reading in Europe/Amsterdam: day number, hour, minute, second and
/// nanosecond, which chrono keeps in their ranges (a leap second shows as a
/// nanosecond count from one to two billion).
#[verifier::external_body]
fn amsterdam_clock() -> (r: (i32, u32, u32, u32, u32))
    ensures
        r.1 < 24,
        r.2 < 60,
        r.3 < 60,
        r.4 < 2_000_000_000,
{
    let t = chrono::Utc::now().with_timezone(&chrono_tz::Europe::Amsterdam);
    (t.num_days_from_ce(), t.hour(), t.minute(), t.second(), t.nanosecond())
}

/// The current wall-clock reading in Europe/Amsterdam.
pub fn now() -> (r: DateTime)
    ensures
        r.wf(),
{
    let (day, hour, minute, second, nanosecond) = amsterdam_clock();
    DateTime::from_clock(day, hour, minute, second, nanosecond)
}

/// The occurrence arithmetic of the reminder schedule.
pub trait TimeHelpers: Sized {
    /// Whether the reading is well formed and leaves room for `days` more days.
    spec fn has_room(&self, days: int) -> bool;

    /// The earliest reading after this one, moving by whole calendar days, whose
    /// weekday is `weekday`. A reading already on `weekday` moves a full week.
    fn next_weekday(self, weekday: Weekday) -> Self
        requires
            self.has_room(7),
    ;

    /// When the next reminder goes out.
    fn next_invitation_time(self) -> Self
        requires
            self.has_room(8),
    ;

    /// The session date that a reminder sent at this reading announces.
    fn next_session_date(self) -> Self
        requires
            self.has_room(21),
    ;
}

impl TimeHelpers for DateTime {
    open spec fn has_room(&self, days: int) -> bool {
        self.wf() && self.day + days <= i32::MAX
    }

    /// The earliest reading after this one, moving by whole calendar days, whose
    /// weekday is `weekday`. A reading already on `weekday` moves a full week.
    fn next_weekday(self, weekday: Weekday) -> (r: DateTime)
        ensures
            r == self.next_weekday_spec(weekday),
            r.weekday_spec() == weekday,
    {
        proof {
            lemma_days_until(self.day as int, weekday);
        }
        let ghost target = self.day + days_until(self.day as int, weekday);
        let mut time = self;
        if time.weekday() == weekday {
            time = time.add_days(1);
        }
        while time.weekday() != weekday
            invariant
                self.day + 7 <= i32::MAX,
                target == self.day + days_until(self.day as int, weekday),
                1 <= days_until(self.day as int, weekday) <= 7,
                weekday_of_day(target) == weekday,
                self.day <= time.day <= target,
                time == self.plus_days(time.day - self.day),
                time.day == self.day ==> self.weekday_spec() != weekday,
            decreases target - time.day,
        {
            proof {
                lemma_days_until(self.day as int, weekday);
                assert(time.day < target);
            }
            time = time.add_days(1);
        }
        proof {
            lemma_days_until(self.day as int, weekday);
            if time.day < target && time.day != self.day {
                assert(weekday_of_day(self.day + (time.day - self.day)) != weekday);
            }
        }
        time
    }

    /// When the next reminder goes out: the coming Tuesday at 10:00:00.000,
    /// strictly after this reading.
    fn next_invitation_time(self) -> (r: DateTime)
        ensures
            r == self.next_invitation_spec(),
    {
        let time = self.next_weekday(Weekday::Tue).with_time(10, 0, 0);
        proof {
            lemma_days_until(self.day as int, Weekday::Tue);
            lemma_later_day(time, self);
        }
        if time.is_later_than(&self) {
            time
        } else {
            time.add_days(1)
        }
    }

    /// The session date that a reminder sent at this reading announces: the
    /// Thursday two weeks after the next Thursday, at 19:00:00.000.
    fn next_session_date(self) -> (r: DateTime)
        ensures
            r == self.next_session_spec(),
    {
        proof {
            lemma_days_until(self.day as int, Weekday::Thu);
        }
        self.next_weekday(Weekday::Thu).add_days(14).with_time(19, 0, 0)
    }

}

/// A reading on a later day comes later, whatever the times of day.
pub proof fn lemma_later_day(a: DateTime, b: DateTime)
    requires
        a.wf(),
        b.wf(),
        a.day > b.day,
    ensures
        a.ticks() > b.ticks(),
        a.ticks() - b.ticks() > (a.day - b.day - 1) * nanos_per_day(),
{
    let (x, y) = (a.time_of_day(), b.time_of_day());
    let (d, e) = (a.day as int, b.day as int);
    assert(d * nanos_per_day() + x - (e * nanos_per_day() + y) > (d - e - 1) * nanos_per_day())
        by (nonlinear_arith)
        requires
            0 <= x < nanos_per_day(),
            0 <= y < nanos_per_day(),
    ;
    assert((d - e - 1) * nanos_per_day() >= 0) by (nonlinear_arith)
        requires
            d > e,
            nanos_per_day() > 0,
    ;
}

/// A wall-clock reading in the Europe/Amsterdam time zone.
#[derive(Clone, Copy, Debug, PartialEq, Eq, Structural)]
pub struct DateTime {
    /// Day number: 0001-01-01 of the proleptic Gregorian calendar is day 1.
    pub day: i32,
    pub hour: u32,
    pub minute: u32,
    pub second: u32,
    pub nanosecond: u32,
}

impl DateTime {
    /// Each time-of-day field lies in its range.
    pub open spec fn wf(self) -> bool {
        self.hour < 24 && self.minute < 60 && self.second < 60 && self.nanosecond
            < 1_000_000_000
    }

    /// Position on the wall-clock time line, in nanoseconds.
    pub open spec fn ticks(self) -> int {
        self.day * nanos_per_day() + self.time_of_day()
    }

    /// Nanoseconds since the start of the day.
    pub open spec fn time_of_day(self) -> int {
        ((self.hour * 60 + self.minute) * 60 + self.second) * 1_000_000_000 + self.nanosecond
    }

    pub open spec fn weekday_spec(self) -> Weekday {
        weekday_of_day(self.day as int)
    }

    /// The same time of day, `k` calendar days later.
    pub open spec fn plus_days(self, k: int) -> DateTime {
        DateTime { day: (self.day + k) as i32, ..self }
    }

    /// The same day at `hour:minute:second`, with no fraction of a second.
    pub open spec fn at(self, hour: u32, minute: u32, second: u32) -> DateTime {
        DateTime { day: self.day, hour, minute, second, nanosecond: 0 }
    }

    /// A reading from clock fields; the fraction of a leap second is held at the
    /// last nanosecond of second 59.
    pub open spec fn from_clock_spec(day: i32, hour: u32, minute: u32, second: u32, nanosecond: u32) -> DateTime {
        DateTime {
            day,
            hour,
            minute,
            second,
            nanosecond: if nanosecond < 1_000_000_000 {
                nanosecond
            } else {
                999_999_999
            },
        }
    }

    /// The first reading after this one, by whole calendar days, that falls on
    /// `w`: at least one day later, a full week when this day is already a `w`.
    pub open spec fn next_weekday_spec(self, w: Weekday) -> DateTime {
        self.plus_days(days_until(self.day as int, w))
    }

    /// Tuesday 10:00:00.000 of the week that [`Self::next_weekday_spec`] finds.
    pub open spec fn next_invitation_spec(self) -> DateTime {
        self.next_weekday_spec(Weekday::Tue).at(10, 0, 0)
    }

    /// 19:00:00.000 two weeks after the next Thursday.
    pub open spec fn next_session_spec(self) -> DateTime {
        self.next_weekday_spec(Weekday::Thu).plus_days(14).at(19, 0, 0)
    }

    /// A reading from clock fields, where a leap second's fraction (a
    /// nanosecond count of a billion or more) is held at 999,999,999.
    pub fn from_clock(day: i32, hour: u32, minute: u32, second: u32, nanosecond: u32) -> (r: DateTime)
        requires
            hour < 24,
            minute < 60,
            second < 60,
        ensures
            r == DateTime::from_clock_spec(day, hour, minute, second, nanosecond),
            r.wf(),
    {
        let nanosecond = if nanosecond < 1_000_000_000 {
            nanosecond
        } else {
            999_999_999
        };
        DateTime { day, hour, minute, second, nanosecond }
    }

    /// The reading `hour:minute:second` on the calendar date
    /// `year-month-day`; `None` where the date does not exist or a time field
    /// is out of range.
    pub fn from_ymd_hms(year: i32, month: u32, day: u32, hour: u32, minute: u32, second: u32) -> (r: Option<DateTime>)
        ensures
            r == (if hour < 24 && minute < 60 && second < 60 && day_number_of(year as int, month as int, day as int).is_some() {
                Some(DateTime { day: day_number_of(year as int, month as int, day as int).unwrap(), hour, minute, second, nanosecond: 0 })
            } else {
                None::<DateTime>
            }),
    {
        if hour >= 24 || minute >= 60 || second >= 60 {
            return None;
        }
        match day_number(year, month, day) {
            Some(n) => Some(DateTime { day: n, hour, minute, second, nanosecond: 0 }),
            None => None,
        }
    }

    /// Weekday of this reading.
    pub fn weekday(&self) -> (r: Weekday)
        ensures
            r == self.weekday_spec(),
    {
        let x: i64 = self.day as i64 - 1 + 7 * 400_000_000;
        let i: i64 = x % 7;
        proof {
            lemma_mod_multiples_vanish(400_000_000, self.day - 1, 7);
        }
        if i == 0 {
            Weekday::Mon
        } else if i == 1 {
            Weekday::Tue
        } else if i == 2 {
            Weekday::Wed
        } else if i == 3 {
            Weekday::Thu
        } else if i == 4 {
            Weekday::Fri
        } else if i == 5 {
            Weekday::Sat
        } else {
            Weekday::Sun
        }
    }

    /// The same time of day, `k` calendar days later.
    pub fn add_days(self, k: i32) -> (r: DateTime)
        requires
            i32::MIN <= self.day + k <= i32::MAX,
        ensures
            r == self.plus_days(k as int),
    {
        DateTime { day: self.day + k, ..self }
    }

    /// The same day at `hour:minute:second`, with no fraction of a second.
    pub fn with_time(self, hour: u32, minute: u32, second: u32) -> (r: DateTime)
        requires
            hour < 24,
            minute < 60,
            second < 60,
        ensures
            r == self.at(hour, minute, second),
            r.wf(),
    {
        DateTime { day: self.day, hour, minute, second, nanosecond: 0 }
    }

    /// Whether `self` comes strictly after `other` on the wall clock.
    pub fn is_later_than(&self, other: &DateTime) -> (r: bool)
        requires
            self.wf(),
            other.wf(),
        ensures
            r == (self.ticks() > other.ticks()),
    {
        proof {
            let (a, b) = (self.time_of_day(), other.time_of_day());
            assert(0 <= a < nanos_per_day() && 0 <= b < nanos_per_day());
            let (d, e) = (self.day as int, other.day as int);
            assert(d > e ==> d * nanos_per_day() + a > e * nanos_per_day() + b) by (nonlinear_arith)
                requires
                    0 <= a < nanos_per_day(),
                    0 <= b < nanos_per_day(),
                    nanos_per_day() > 0,
            ;
            assert(d < e ==> d * nanos_per_day() + a < e * nanos_per_day() + b) by (nonlinear_arith)
                requires
                    0 <= a < nanos_per_day(),
                    0 <= b < nanos_per_day(),
                    nanos_per_day() > 0,
            ;
        }
        if self.day != other.day {
            self.day > other.day
        } else if self.hour != other.hour {
            self.hour > other.hour
        } else if self.minute != other.minute {
            self.minute > other.minute
        } else if self.second != other.second {
            self.second > other.second
        } else {
            self.nanosecond > other.nanosecond
        }
    }
}

/// The next reading on weekday `w` does fall on `w`, and it lies strictly after
/// the starting reading, also when that reading already falls on `w`.
pub proof fn lemma_next_weekday_advances(t: DateTime, w: Weekday)
    requires
        t.wf(),
        t.day + 7 <= i32::MAX,
    ensures
        t.next_weekday_spec(w).weekday_spec() == w,
        t.next_weekday_spec(w).ticks() > t.ticks(),
        t.weekday_spec() == w ==> t.next_weekday_spec(w).day == t.day + 7,
{
    lemma_days_until(t.day as int, w);
    lemma_later_day(t.next_weekday_spec(w), t);
}

/// The next reminder falls on a Tuesday at exactly 10:00:00.000, strictly after
/// the reading it was computed from.
pub proof fn lemma_invitation_is_tuesday_morning(t: DateTime)
    requires
        t.wf(),
        t.day + 8 <= i32::MAX,
    ensures
        t.next_invitation_spec().weekday_spec() == Weekday::Tue,
        t.next_invitation_spec().hour == 10,
        t.next_invitation_spec().minute == 0,
        t.next_invitation_spec().second == 0,
        t.next_invitation_spec().nanosecond == 0,
        t.next_invitation_spec().ticks() > t.ticks(),
{
    lemma_days_until(t.day as int, Weekday::Tue);
    lemma_later_day(t.next_invitation_spec(), t);
}

/// The announced session falls on a Thursday at exactly 19:00:00.000, and
/// between 14 and 20 whole days after the reading it was computed from. Readings
/// on a Thursday at or before 19:00 are left out: there the next Thursday is a
/// week away and the session lands 21 days and more after them.
pub proof fn lemma_session_is_two_weeks_out(t: DateTime)
    requires
        t.wf(),
        t.day + 21 <= i32::MAX,
        !(t.weekday_spec() == Weekday::Thu && t.time_of_day() <= 19 * 3600 * 1_000_000_000),
    ensures
        t.next_session_spec().weekday_spec() == Weekday::Thu,
        t.next_session_spec().hour == 19,
        t.next_session_spec().minute == 0,
        t.next_session_spec().second == 0,
        t.next_session_spec().nanosecond == 0,
        t.ticks() + 14 * nanos_per_day() <= t.next_session_spec().ticks(),
        t.next_session_spec().ticks() < t.ticks() + 21 * nanos_per_day(),
{
    let k = days_until(t.day as int, Weekday::Thu);
    lemma_days_until(t.day as int, Weekday::Thu);
    let r = t.next_session_spec();
    assert(r.day == t.day + k + 14);
    assert(weekday_of_day(t.day + k) == Weekday::Thu);
    assert(((t.day + k + 14) - 1) % 7 == ((t.day + k) - 1) % 7) by {
        lemma_mod_multiples_vanish(2, (t.day + k) - 1, 7);
    }
    let x = t.time_of_day();
    assert(0 <= x < nanos_per_day());
    assert(r.time_of_day() == 19 * 3600 * 1_000_000_000);
    assert(k == 7 ==> x > 19 * 3600 * 1_000_000_000);
    let (d, e) = (r.day as int, t.day as int);
    assert(d * nanos_per_day() - e * nanos_per_day() == (k + 14) * nanos_per_day())
        by (nonlinear_arith)
        requires
            d == e + k + 14,
    ;
}

/// Recomputing the reminder time right when a reminder fires gives the same
/// time a week later: a reminder never fires twice within the same week.
pub proof fn lemma_invitation_recomputed_is_a_week_later(t: DateTime)
    requires
        t.wf(),
        t.day + 16 <= i32::MAX,
    ensures
        t.next_invitation_spec().next_invitation_spec() == t.next_invitation_spec().plus_days(7),
        t.next_invitation_spec().next_invitation_spec().ticks() == t.next_invitation_spec().ticks()
            + 7 * nanos_per_day(),
{
    let r = t.next_invitation_spec();
    lemma_days_until(t.day as int, Weekday::Tue);
    lemma_days_until(r.day as int, Weekday::Tue);
    let (d, e) = (r.day as int + 7, r.day as int);
    assert(d * nanos_per_day() == e * nanos_per_day() + 7 * nanos_per_day()) by (nonlinear_arith)
        requires
            d == e + 7,
    ;
}

} // verus!
