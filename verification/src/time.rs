//! Clock arithmetic used by the schedulers: times of day, calendar dates and
//! the daily trigger.

use chrono::{Datelike, Timelike};
use vstd::prelude::*;

verus! {

/// A wall-clock time of day: whole seconds since midnight and the nanoseconds
/// within that second. The nanoseconds reach past one second only while a leap
/// second is being represented, in the last second of a minute.
#[derive(Clone, Copy, Debug, PartialEq, Eq, Structural)]
pub struct TimeOfDay {
    pub secs: u32,
    pub nanos: u32,
}

impl TimeOfDay {
    /// The values that a time of day can take.
    pub open spec fn wf(self) -> bool {
        &&& self.secs < 86_400
        &&& self.nanos < 2_000_000_000
        &&& (self.nanos >= 1_000_000_000 ==> self.secs % 60 == 59)
    }

    /// Strictly earlier within the day: ordered by second, then by nanosecond.
    pub open spec fn spec_before(self, other: TimeOfDay) -> bool {
        self.secs < other.secs || (self.secs == other.secs && self.nanos < other.nanos)
    }

    /// Earlier within the day or the same instant.
    pub open spec fn spec_not_after(self, other: TimeOfDay) -> bool {
        self.spec_before(other) || self == other
    }

    pub fn before(&self, other: &TimeOfDay) -> (r: bool)
        ensures
            r == self.spec_before(*other),
    {
        self.secs < other.secs || (self.secs == other.secs && self.nanos < other.nanos)
    }

    pub fn not_after(&self, other: &TimeOfDay) -> (r: bool)
        ensures
            r == self.spec_not_after(*other),
    {
        self.before(other) || (self.secs == other.secs && self.nanos == other.nanos)
    }
}

/// Whether the daily time `time` falls in the window of a ticker that last looked
/// at the clock at `start` and looks again at `end`: after `start` and no later
/// than `end`, or, when the window wraps past midnight, no later than `end`.
pub open spec fn spec_time_is_between(start: TimeOfDay, end: TimeOfDay, time: TimeOfDay) -> bool {
    (start.spec_before(time) && time.spec_not_after(end))
        || (end.spec_before(start) && time.spec_not_after(end))
}

/// No time of day lies in the window of a ticker that did not move.
pub proof fn lemma_still_window_is_empty(tick: TimeOfDay, time: TimeOfDay)
    ensures
        !spec_time_is_between(tick, tick, time),
{
}

/// Within one day, the window from `a` to `c` is split by any tick `b` between them:
/// a time lies in the whole window exactly when it lies in one of the two parts, and
/// no time lies in both. So a daily time is due at exactly one of the ticks that cover it.
pub proof fn lemma_window_split(a: TimeOfDay, b: TimeOfDay, c: TimeOfDay, time: TimeOfDay)
    requires
        a.spec_not_after(b),
        b.spec_not_after(c),
    ensures
        spec_time_is_between(a, c, time) <==> (spec_time_is_between(a, b, time) || spec_time_is_between(b, c, time)),
        !(spec_time_is_between(a, b, time) && spec_time_is_between(b, c, time)),
{
}

pub fn time_of_day_is_between(start: TimeOfDay, end: TimeOfDay, time: TimeOfDay) -> (r: bool)
    ensures
        r == spec_time_is_between(start, end, time),
{
    (start.before(&time) && time.not_after(&end)) || (end.before(&start) && time.not_after(&end))
}


impl TimeOfDay {
    /// The time `hour:min:sec.nano` as chrono builds it: `None` unless the hour, minute
    /// and second are in range and the nanoseconds stay below one second, or below two
    /// seconds in the last second of a minute.
    pub open spec fn spec_from_hms_nano(hour: int, min: int, sec: int, nano: int) -> Option<TimeOfDay> {
        if hour < 24 && min < 60 && sec < 60 && nano < 2_000_000_000 && (nano >= 1_000_000_000 ==> sec == 59) {
            Some(TimeOfDay { secs: (hour * 3600 + min * 60 + sec) as u32, nanos: nano as u32 })
        } else {
            None
        }
    }

    /// `hour:min:sec`, or `None` when it is no time of day.
    pub fn from_hms_opt(hour: u32, min: u32, sec: u32) -> (r: Option<TimeOfDay>)
        ensures
            r == Self::spec_from_hms_nano(hour as int, min as int, sec as int, 0),
    {
        chrono_time_from_hms(hour, min, sec)
    }

    /// `hour:min:sec` and `milli` milliseconds, or `None` when it is no time of day.
    pub fn from_hms_milli_opt(hour: u32, min: u32, sec: u32, milli: u32) -> (r: Option<TimeOfDay>)
        ensures
            r == Self::spec_from_hms_nano(hour as int, min as int, sec as int, milli * 1_000_000),
    {
        chrono_time_from_hms_milli(hour, min, sec, milli)
    }
}

/// Calls `chrono::NaiveTime::from_hms_opt` and reads back the seconds since midnight
/// and the nanoseconds of the result. The contract restates the range checks of that
/// function and the fields it stores (`hour * 3600 + min * 60 + sec`, no nanoseconds).
#[verifier::external_body]
fn chrono_time_from_hms(hour: u32, min: u32, sec: u32) -> (r: Option<TimeOfDay>)
    ensures
        r == TimeOfDay::spec_from_hms_nano(hour as int, min as int, sec as int, 0),
{
    chrono::NaiveTime::from_hms_opt(hour, min, sec).map(
        |t| TimeOfDay { secs: t.num_seconds_from_midnight(), nanos: t.nanosecond() },
    )
}

/// Calls `chrono::NaiveTime::from_hms_milli_opt` and reads back the seconds since
/// midnight and the nanoseconds of the result. The contract restates what that function
/// does: `None` when `milli * 1_000_000` overflows, and otherwise the range checks of
/// `from_hms_nano_opt` on `milli * 1_000_000` nanoseconds.
#[verifier::external_body]
fn chrono_time_from_hms_milli(hour: u32, min: u32, sec: u32, milli: u32) -> (r: Option<TimeOfDay>)
    ensures
        r == TimeOfDay::spec_from_hms_nano(hour as int, min as int, sec as int, milli * 1_000_000),
{
    chrono::NaiveTime::from_hms_milli_opt(hour, min, sec, milli).map(
        |t| TimeOfDay { secs: t.num_seconds_from_midnight(), nanos: t.nanosecond() },
    )
}

/// A day of the week.
#[derive(Clone, Copy, Debug, PartialEq, Eq, Structural)]
pub enum Weekday {
    Mon,
    Tue,
    Wed,
    Thu,
    Fri,
    Sat,
    Sun,
}

impl Weekday {
    /// The weekday `index` days after a Monday, for `index` from 0 to 6.
    pub open spec fn spec_from_index(index: int) -> Weekday {
        if index == 0 {
            Weekday::Mon
        } else if index == 1 {
            Weekday::Tue
        } else if index == 2 {
            Weekday::Wed
        } else if index == 3 {
            Weekday::Thu
        } else if index == 4 {
            Weekday::Fri
        } else if index == 5 {
            Weekday::Sat
        } else {
            Weekday::Sun
        }
    }

    /// Days since Monday.
    pub open spec fn spec_index(self) -> int {
        match self {
            Weekday::Mon => 0,
            Weekday::Tue => 1,
            Weekday::Wed => 2,
            Weekday::Thu => 3,
            Weekday::Fri => 4,
            Weekday::Sat => 5,
            Weekday::Sun => 6,
        }
    }
}

/// Whether `year` is a leap year of the proleptic Gregorian calendar.
pub open spec fn is_leap_year(year: int) -> bool {
    (year % 4 == 0 && year % 100 != 0) || year % 400 == 0
}

/// The number of days of a month of the proleptic Gregorian calendar.
pub open spec fn days_in_month(year: int, month: int) -> int {
    if month == 2 {
        if is_leap_year(year) { 29 } else { 28 }
    } else if month == 4 || month == 6 || month == 9 || month == 11 {
        30
    } else {
        31
    }
}

/// The dates that chrono can represent: years from -262143 to 262142, months from 1 to
/// 12 and days that exist in that month.
pub open spec fn valid_ymd(year: int, month: int, day: int) -> bool {
    &&& -262_143 <= year <= 262_142
    &&& 1 <= month <= 12
    &&& 1 <= day <= days_in_month(year, month)
}

/// Days from 1970-01-01 to the given date of the proleptic Gregorian calendar.
pub open spec fn days_from_civil(year: int, month: int, day: int) -> int {
    let y = if month <= 2 { year - 1 } else { year };
    let era = y / 400;
    let yoe = y - era * 400;
    let mp = (month + 9) % 12;
    let doy = (153 * mp + 2) / 5 + day - 1;
    let doe = yoe * 365 + yoe / 4 - yoe / 100 + doy;
    era * 146_097 + doe - 719_468
}

/// The weekday of a date, counted in days since Monday (1970-01-01 was a Thursday).
pub open spec fn weekday_index_of(year: int, month: int, day: int) -> int {
    (days_from_civil(year, month, day) + 3) % 7
}

/// A calendar date.
#[derive(Clone, Copy, Debug, PartialEq, Eq, Structural)]
pub struct Date {
    pub year: i32,
    pub month: u32,
    pub day: u32,
}

impl Date {
    pub open spec fn wf(self) -> bool {
        valid_ymd(self.year as int, self.month as int, self.day as int)
    }

    /// The day of the week of this date.
    pub open spec fn spec_weekday(self) -> Weekday {
        Weekday::spec_from_index(weekday_index_of(self.year as int, self.month as int, self.day as int))
    }

    /// The date `year-month-day`, or `None` where there is no such date.
    pub fn from_ymd_opt(year: i32, month: u32, day: u32) -> (r: Option<Date>)
        ensures
            r == (if valid_ymd(year as int, month as int, day as int) {
                Some(Date { year, month, day })
            } else {
                None
            }),
    {
        if chrono_date_is_valid(year, month, day) {
            Some(Date { year, month, day })
        } else {
            None
        }
    }

    /// This date at `hour:min:sec`, or `None` when that is no time of day.
    pub fn and_hms_opt(&self, hour: u32, min: u32, sec: u32) -> (r: Option<LocalDateTime>)
        ensures
            r == (match TimeOfDay::spec_from_hms_nano(hour as int, min as int, sec as int, 0) {
                Some(t) => Some(LocalDateTime { date: *self, time: t }),
                None => None,
            }),
    {
        match TimeOfDay::from_hms_opt(hour, min, sec) {
            Some(t) => Some(LocalDateTime { date: *self, time: t }),
            None => None,
        }
    }

    /// The day of the week of this date.
    pub fn weekday(&self) -> (r: Weekday)
        requires
            self.wf(),
        ensures
            r == self.spec_weekday(),
    {
        chrono_weekday(self.year, self.month, self.day)
    }
}

/// Calls `chrono::NaiveDate::from_ymd_opt` and tells whether it found the date. The
/// contract restates which dates chrono accepts: its year range and the days of each
/// month of the proleptic Gregorian calendar.
#[verifier::external_body]
fn chrono_date_is_valid(year: i32, month: u32, day: u32) -> (r: bool)
    ensures
        r == valid_ymd(year as int, month as int, day as int),
{
    chrono::NaiveDate::from_ymd_opt(year, month, day).is_some()
}

/// Calls `chrono::Datelike::weekday` on the date `year-month-day`. The contract states
/// the weekday of the proleptic Gregorian calendar, which chrono implements.
#[verifier::external_body]
fn chrono_weekday(year: i32, month: u32, day: u32) -> (r: Weekday)
    requires
        valid_ymd(year as int, month as int, day as int),
    ensures
        r == Weekday::spec_from_index(weekday_index_of(year as int, month as int, day as int)),
{
    match chrono::NaiveDate::from_ymd_opt(year, month, day).unwrap().weekday() {
        chrono::Weekday::Mon => Weekday::Mon,
        chrono::Weekday::Tue => Weekday::Tue,
        chrono::Weekday::Wed => Weekday::Wed,
        chrono::Weekday::Thu => Weekday::Thu,
        chrono::Weekday::Fri => Weekday::Fri,
        chrono::Weekday::Sat => Weekday::Sat,
        chrono::Weekday::Sun => Weekday::Sun,
    }
}

/// A date and time of day on the local clock.
#[derive(Clone, Copy, Debug, PartialEq, Eq, Structural)]
pub struct LocalDateTime {
    pub date: Date,
    pub time: TimeOfDay,
}

impl LocalDateTime {
    pub open spec fn wf(self) -> bool {
        self.date.wf() && self.time.wf()
    }

    /// The day of this reading, counted from 1970-01-01.
    pub open spec fn day_number(self) -> int {
        days_from_civil(self.date.year as int, self.date.month as int, self.date.day as int)
    }

    /// Strictly earlier on the local clock: by day, then by time of day.
    pub open spec fn spec_before(self, other: LocalDateTime) -> bool {
        self.day_number() < other.day_number() || (self.day_number() == other.day_number()
            && self.time.spec_before(other.time))
    }

    /// Earlier on the local clock or the same reading.
    pub open spec fn spec_not_after(self, other: LocalDateTime) -> bool {
        self.spec_before(other) || (self.day_number() == other.day_number() && self.time == other.time)
    }

    /// `other` is a later reading, less than 24 hours after this one.
    pub open spec fn within_a_day_before(self, other: LocalDateTime) -> bool {
        &&& self.spec_before(other)
        &&& other.day_number() <= self.day_number() + 1
        &&& other.day_number() == self.day_number() + 1 ==> other.time.spec_before(self.time)
    }
}

/// The occurrence of the daily `time` on the day of `at`.
pub open spec fn occurrence(at: LocalDateTime, time: TimeOfDay) -> LocalDateTime {
    LocalDateTime { date: at.date, time }
}

/// Whether the daily `time` is due in the window from `start` (exclusive) to `end`
/// (inclusive) of the local clock; only the times of day of `start` and `end` count.
pub fn time_is_between(start: LocalDateTime, end: LocalDateTime, time: TimeOfDay) -> (r: bool)
    ensures
        r == spec_time_is_between(start.time, end.time, time),
{
    time_of_day_is_between(start.time, end.time, time)
}


/// Milliseconds between two ticks of a daily trigger's ticker.
pub const TICKER_MS: u64 = 500;

/// What the daily trigger does at a tick of its ticker.
#[derive(Clone, Copy, Debug, PartialEq, Eq, Structural)]
pub enum DailyDecision {
    /// The daily time has come on an allowed weekday: send the message.
    Fire,
    /// The daily time has come, but not on one of the allowed weekdays.
    SkipWeekday,
    /// The daily time is not in the window since the last tick.
    Wait,
}

/// A trigger that fires once a day at `time`, on the weekdays of `day_filter`
/// (every day when there is no filter). Its ticker checks the clock often; the
/// trigger fires when `time` falls between the previous check and this one.
#[derive(Debug)]
pub struct Daily {
    pub last_tick: LocalDateTime,
    pub time: TimeOfDay,
    pub day_filter: Option<Vec<Weekday>>,
}

/// Whether `day` passes a weekday filter: every day passes an absent filter.
pub open spec fn day_allowed(day_filter: Option<Vec<Weekday>>, day: Weekday) -> bool {
    match day_filter {
        None => true,
        Some(days) => days@.contains(day),
    }
}

impl Daily {
    /// A trigger created at `now`.
    pub fn new(now: LocalDateTime, time: TimeOfDay, day_filter: Option<Vec<Weekday>>) -> (r: Daily)
        ensures
            r.last_tick == now,
            r.time == time,
            r.day_filter == day_filter,
    {
        Daily { last_tick: now, time, day_filter }
    }

    /// The decision at a tick that reads the clock at `now`.
    pub open spec fn spec_decide(self, now: LocalDateTime) -> DailyDecision {
        if spec_time_is_between(self.last_tick.time, now.time, self.time) {
            if day_allowed(self.day_filter, now.date.spec_weekday()) {
                DailyDecision::Fire
            } else {
                DailyDecision::SkipWeekday
            }
        } else {
            DailyDecision::Wait
        }
    }

    /// One tick of the ticker at `now`: decides, then remembers `now` as the last tick.
    pub fn tick(&mut self, now: LocalDateTime) -> (r: DailyDecision)
        requires
            now.date.wf(),
        ensures
            r == old(self).spec_decide(now),
            final(self).last_tick == now,
            final(self).time == old(self).time,
            final(self).day_filter == old(self).day_filter,
    {
        let r = if time_of_day_is_between(self.last_tick.time, now.time, self.time) {
            let day = now.date.weekday();
            if weekday_allowed(&self.day_filter, day) {
                DailyDecision::Fire
            } else {
                DailyDecision::SkipWeekday
            }
        } else {
            DailyDecision::Wait
        };
        self.last_tick = now;
        r
    }
}

/// A window that is due for the daily `time` covers the occurrence of `time` on the
/// day of the later tick: that occurrence lies after the earlier tick and no later
/// than the later one, when the later tick comes less than 24 hours after the earlier.
pub proof fn lemma_due_window_holds_occurrence(earlier: LocalDateTime, later: LocalDateTime, time: TimeOfDay)
    requires
        earlier.within_a_day_before(later),
        spec_time_is_between(earlier.time, later.time, time),
    ensures
        earlier.spec_before(occurrence(later, time)),
        occurrence(later, time).spec_not_after(later),
{
}

proof fn lemma_readings_ordered(ticks: Seq<LocalDateTime>, i: int, j: int)
    requires
        forall|k: int| 0 <= k < ticks.len() - 1 ==> (#[trigger] ticks[k]).within_a_day_before(ticks[k + 1]),
        0 <= i <= j < ticks.len(),
    ensures
        ticks[i].spec_not_after(ticks[j]),
    decreases j - i,
{
    if i < j {
        lemma_readings_ordered(ticks, i, j - 1);
        assert(ticks[j - 1].within_a_day_before(ticks[j]));
    }
}

/// A daily trigger fires at most once for each occurrence of its time, across
/// midnight too: when the clock readings of its ticks increase by less than 24 hours
/// each, two different ticks that fire do so for occurrences on different days.
pub proof fn lemma_daily_fires_once_per_occurrence(
    ticks: Seq<LocalDateTime>,
    time: TimeOfDay,
    day_filter: Option<Vec<Weekday>>,
    i: int,
    j: int,
)
    requires
        forall|k: int| 0 <= k < ticks.len() - 1 ==> (#[trigger] ticks[k]).within_a_day_before(ticks[k + 1]),
        0 <= i < j < ticks.len() - 1,
        (Daily { last_tick: ticks[i], time, day_filter }).spec_decide(ticks[i + 1]) == DailyDecision::Fire,
        (Daily { last_tick: ticks[j], time, day_filter }).spec_decide(ticks[j + 1]) == DailyDecision::Fire,
    ensures
        ticks[i + 1].day_number() != ticks[j + 1].day_number(),
        occurrence(ticks[i + 1], time).spec_before(occurrence(ticks[j + 1], time)),
{
    assert(ticks[i].within_a_day_before(ticks[i + 1]));
    assert(ticks[j].within_a_day_before(ticks[j + 1]));
    lemma_due_window_holds_occurrence(ticks[i], ticks[i + 1], time);
    lemma_due_window_holds_occurrence(ticks[j], ticks[j + 1], time);
    lemma_readings_ordered(ticks, i + 1, j);
}

/// A time of day as one number: its nanoseconds since midnight, where a leap second's
/// extra nanoseconds run on past the second it belongs to.
pub open spec fn clock_reading(t: TimeOfDay) -> int {
    t.secs * 2_000_000_000 + t.nanos
}

/// The window of a ticker, measured on the clock: a time is due when it comes after
/// the earlier tick and no later than the later one; when the later tick reads an
/// earlier time of day than the earlier tick (the window crosses midnight), the times
/// from midnight up to the later tick are due. All times of every part of the day count.
pub proof fn lemma_window_on_the_clock(start: TimeOfDay, end: TimeOfDay, time: TimeOfDay)
    requires
        start.wf(),
        end.wf(),
        time.wf(),
    ensures
        clock_reading(start) < clock_reading(time) <= clock_reading(end) ==> spec_time_is_between(start, end, time),
        spec_time_is_between(start, end, time) ==> clock_reading(time) <= clock_reading(end),
        clock_reading(start) <= clock_reading(end) ==> (spec_time_is_between(start, end, time)
            <==> clock_reading(start) < clock_reading(time) <= clock_reading(end)),
        clock_reading(end) < clock_reading(start) ==> (spec_time_is_between(start, end, time)
            <==> clock_reading(time) <= clock_reading(end)),
{
}

/// The weekday filter lets a day through exactly when there is no filter or the day is
/// one of its elements, wherever it stands in the list.
pub proof fn lemma_filter_lets_listed_days_through(day_filter: Option<Vec<Weekday>>, day: Weekday)
    ensures
        day_filter is None ==> day_allowed(day_filter, day),
        day_filter matches Some(days) ==> (day_allowed(day_filter, day) <==> exists|j: int|
            0 <= j < days@.len() && #[trigger] days@[j] == day),
{
    if day_filter is Some {
        let days = day_filter->0;
        if exists|j: int| 0 <= j < days@.len() && #[trigger] days@[j] == day {
            let j = choose|j: int| 0 <= j < days@.len() && #[trigger] days@[j] == day;
            assert(days@.contains(day));
        }
    }
}

/// A tick decides on the clock reading `now` alone, with the previous reading's time of
/// day: it fires when the daily time is due in the window and the weekday of `now`'s
/// date is one of the filter's days (or there is no filter), skips when it is due on
/// another weekday, and waits when it is not due. The date of the previous tick plays
/// no part.
pub proof fn lemma_tick_decision(daily: Daily, now: LocalDateTime, earlier_date: Date)
    requires
        daily.last_tick.time.wf(),
        now.time.wf(),
        daily.time.wf(),
    ensures
        ({
            let due = (clock_reading(daily.last_tick.time) < clock_reading(daily.time) <= clock_reading(now.time))
                || (clock_reading(now.time) < clock_reading(daily.last_tick.time) && clock_reading(daily.time)
                <= clock_reading(now.time));
            let weekday = weekday_index_of(now.date.year as int, now.date.month as int, now.date.day as int);
            let allowed = match daily.day_filter {
                None => true,
                Some(days) => exists|j: int| 0 <= j < days@.len() && (#[trigger] days@[j]).spec_index() == weekday,
            };
            daily.spec_decide(now) == if due {
                if allowed {
                    DailyDecision::Fire
                } else {
                    DailyDecision::SkipWeekday
                }
            } else {
                DailyDecision::Wait
            }
        }),
        (Daily { last_tick: LocalDateTime { date: earlier_date, time: daily.last_tick.time }, ..daily }).spec_decide(now)
            == daily.spec_decide(now),
{
    lemma_window_on_the_clock(daily.last_tick.time, now.time, daily.time);
    let weekday = weekday_index_of(now.date.year as int, now.date.month as int, now.date.day as int);
    let w = now.date.spec_weekday();
    assert(0 <= weekday < 7);
    assert(w.spec_index() == weekday);
    lemma_filter_lets_listed_days_through(daily.day_filter, w);
    if daily.day_filter is Some {
        let days = daily.day_filter->0;
        assert forall|j: int| 0 <= j < days@.len() implies ((#[trigger] days@[j]).spec_index() == weekday <==> days@[j] == w) by {
        }
    }
}

/// Whether `day` passes the weekday filter.
pub fn weekday_allowed(day_filter: &Option<Vec<Weekday>>, day: Weekday) -> (r: bool)
    ensures
        r == day_allowed(*day_filter, day),
{
    match day_filter {
        None => true,
        Some(days) => {
            let mut i: usize = 0;
            while i < days.len()
                invariant
                    *day_filter == Some(*days),
                    i <= days.len(),
                    forall|j: int| 0 <= j < i ==> days@[j] != day,
                decreases days.len() - i,
            {
                if days[i] == day {
                    assert(days@[i as int] == day);
                    return true;
                }
                i = i + 1;
            }
            false
        },
    }
}

/// A signed span of time as chrono's `TimeDelta` holds it: whole seconds, and
/// nanoseconds from 0 to 999_999_999 that add to them.
#[derive(Clone, Copy, Debug, PartialEq, Eq, Structural)]
pub struct SignedSpan {
    pub secs: i64,
    pub nanos: u32,
}

impl SignedSpan {
    /// The span that chrono's `TimeDelta::num_seconds` and `TimeDelta::subsec_nanos`
    /// describe: those round towards zero, so a negative span with a fraction of a second
    /// reads as `seconds` and a negative `nanos`. The result holds the same length of time
    /// with the nanoseconds made non-negative.
    pub fn from_parts(seconds: i64, nanos: i32) -> (r: SignedSpan)
        requires
            -1_000_000_000 < nanos < 1_000_000_000,
            nanos < 0 ==> seconds > i64::MIN,
        ensures
            r.secs * 1_000_000_000 + r.nanos == seconds * 1_000_000_000 + nanos,
            r.nanos < 1_000_000_000,
            nanos >= 0 ==> r == (SignedSpan { secs: seconds, nanos: nanos as u32 }),
            nanos < 0 ==> r == (SignedSpan { secs: (seconds - 1) as i64, nanos: (nanos + 1_000_000_000) as u32 }),
    {
        if nanos < 0 {
            SignedSpan { secs: seconds - 1, nanos: (nanos + 1_000_000_000) as u32 }
        } else {
            SignedSpan { secs: seconds, nanos: nanos as u32 }
        }
    }
}

/// An unsigned span of time, as `std::time::Duration` holds it.
#[derive(Clone, Copy, Debug, PartialEq, Eq, Structural)]
pub struct Delay {
    pub secs: u64,
    pub nanos: u32,
}

/// When to deliver a message scheduled for a moment: after `delay`, and `late` when
/// the moment had already passed.
#[derive(Clone, Copy, Debug, PartialEq, Eq, Structural)]
pub struct Schedule {
    pub delay: Delay,
    pub late: bool,
}

/// How long to wait before delivering a message scheduled `until` from now: the span
/// itself when it is not negative, and no wait at all when the moment has passed.
pub fn run_at_delay(until: SignedSpan) -> (r: Schedule)
    ensures
        until.secs >= 0 ==> r == (Schedule { delay: Delay { secs: until.secs as u64, nanos: until.nanos }, late: false }),
        until.secs < 0 ==> r == (Schedule { delay: Delay { secs: 0, nanos: 0 }, late: true }),
{
    if until.secs < 0 {
        Schedule { delay: Delay { secs: 0, nanos: 0 }, late: true }
    } else {
        Schedule { delay: Delay { secs: until.secs as u64, nanos: until.nanos }, late: false }
    }
}

} // verus!
