//! Intraday trading calendar for a 23-hour futures session.
//!
//! The market trades from Sunday 18:00 to Friday 17:00, with a daily
//! maintenance window from 17:00 to 18:00. Day 0 is a Monday.
use vstd::prelude::*;
use vstd::arithmetic::div_mod::lemma_fundamental_div_mod_converse;
use crate::text::{decimal, push_decimal, push_two_digits, push_weekday, two_digits, weekday_name};

verus! {

/// Minutes in a day.
pub const MINUTES_PER_DAY: u32 = 1440;

/// Start of the trading session (18:00).
pub const TRADING_DAY_START: u32 = 1080;

/// End of the trading session (17:00 of the next day).
pub const TRADING_DAY_END: u32 = 1020;

/// Start of the daily maintenance window (17:00).
pub const MAINTENANCE_START: u32 = 1020;

/// End of the daily maintenance window (18:00).
pub const MAINTENANCE_END: u32 = 1080;

/// Length of one trading session in minutes (23 hours).
pub const SESSION_MINUTES: u32 = 1380;

/// Minute of the day at which options expire (14:30).
pub const EXPIRATION_MINUTE: u32 = 870;

/// A moment of the simulation: a day index and a minute of that day.
#[derive(Debug, Clone, Copy, PartialEq, Eq, PartialOrd, Ord, Hash, Structural)]
pub struct Timestamp {
    /// Days since the simulation start (day 0 is a Monday).
    pub day: u32,
    /// Minutes from midnight (0 to 1439).
    pub minute: u32,
}

impl Timestamp {
    /// Minutes since the start of day 0.
    pub open spec fn spec_total(&self) -> int {
        self.day * 1440 + self.minute
    }

    /// The minute lies within its day.
    pub open spec fn wf(&self) -> bool {
        self.minute < 1440
    }

    /// A timestamp of `day` at `minute`.
    pub fn new(day: u32, minute: u32) -> (r: Self)
        ensures
            r.day == day,
            r.minute == minute,
    {
        Timestamp { day, minute }
    }

    /// Minutes since the start of day 0.
    pub fn total_minutes(&self) -> (r: u64)
        ensures
            r == self.spec_total(),
    {
        proof {
            assert(self.day as int * 1440 <= 4294967295 * 1440) by (nonlinear_arith)
                requires
                    self.day <= 4294967295,
            ;
        }
        self.day as u64 * MINUTES_PER_DAY as u64 + self.minute as u64
    }

    /// The time of day as `HH:MM`.
    pub open spec fn spec_format_time(&self) -> Seq<char> {
        two_digits((self.minute / 60) as nat) + seq![':'] + two_digits((self.minute % 60) as nat)
    }

    /// The moment as `Day 8 (Tue W1) 09:05`.
    pub open spec fn spec_format(&self) -> Seq<char> {
        seq!['D', 'a', 'y', ' '] + decimal(self.day as nat) + seq![' ', '('] + weekday_name(
            self.day as int % 7,
        ) + seq![' ', 'W'] + decimal((self.day / 7) as nat) + seq![')', ' '] + self.spec_format_time()
    }

    /// The moment as `Day 8 (Tue W1) 09:05`.
    pub fn format(&self) -> (r: String)
        ensures
            r@ == self.spec_format(),
    {
        proof {
            reveal_strlit("Day ");
            reveal_strlit(" (");
            reveal_strlit(" W");
            reveal_strlit(") ");
        }
        let mut s = String::new();
        s.append("Day ");
        push_decimal(&mut s, self.day);
        s.append(" (");
        push_weekday(&mut s, self.day);
        s.append(" W");
        push_decimal(&mut s, self.day / 7);
        s.append(") ");
        let time = self.format_time();
        s.append(time.as_str());
        proof {
            assert(s@ =~= self.spec_format());
        }
        s
    }

    /// The time of day as `HH:MM`.
    pub fn format_time(&self) -> (r: String)
        ensures
            r@ == self.spec_format_time(),
    {
        proof {
            reveal_strlit(":");
        }
        let mut s = String::new();
        push_two_digits(&mut s, self.minute / 60);
        s.append(":");
        push_two_digits(&mut s, self.minute % 60);
        proof {
            assert(s@ =~= self.spec_format_time());
        }
        s
    }
}

/// Whether the market is open at `minute` of `day`.
pub open spec fn spec_is_trading_time(day: int, minute: int) -> bool {
    let w = day % 7;
    if w == 4 {
        minute < 1020
    } else if w == 5 {
        false
    } else if w == 6 {
        minute >= 1080
    } else {
        minute < 1020 || minute >= 1080
    }
}

/// Whether the market is open `t` minutes after the start of day 0.
pub open spec fn trading_at(t: int) -> bool {
    spec_is_trading_time(t / 1440, t % 1440)
}

/// Every day but Saturday holds trading time.
pub open spec fn spec_is_session_day(day: int) -> bool {
    day % 7 != 5
}

/// Number of days in `[start, end)` that hold trading time.
pub open spec fn count_session_days(start: int, end: int) -> nat
    decreases end - start,
{
    if end <= start {
        0
    } else {
        count_session_days(start, end - 1) + if spec_is_session_day(end - 1) {
            1nat
        } else {
            0nat
        }
    }
}

/// `to` is the first trading time among the moments `interval`, `2 * interval`, ...
/// minutes after `from`.
pub open spec fn is_next_trading_time(from: Timestamp, to: Timestamp, interval: int) -> bool {
    &&& to.wf()
    &&& spec_is_trading_time(to.day as int, to.minute as int)
    &&& exists|k: int|
        k >= 1 && to.spec_total() == #[trigger] step_moment(from, k, interval) && forall|j: int|
            1 <= j < k ==> !trading_at(#[trigger] step_moment(from, j, interval))
}

/// The moment `k * interval` minutes after `from`, in minutes since day 0.
pub open spec fn step_moment(from: Timestamp, k: int, interval: int) -> int {
    from.spec_total() + k * interval
}

/// Days to expiration in minutes: whole days count 1440 minutes each and
/// the expiration day counts the minutes left until 14:30.
pub open spec fn spec_dte_minutes(current: Timestamp, expiration_day: int) -> int {
    if current.day > expiration_day {
        0
    } else if current.day == expiration_day {
        if current.minute >= 870 {
            0
        } else {
            870 - current.minute
        }
    } else {
        (count_session_days(current.day as int, expiration_day) * 1440) as int
    }
}

/// Where the closed period containing a non-trading moment ends, in minutes since day 0.
spec fn closed_until(day: int, minute: int) -> int {
    let w = day % 7;
    if w == 4 {
        (day + 2) * 1440 + 1080
    } else if w == 5 {
        (day + 1) * 1440 + 1080
    } else {
        day * 1440 + 1080
    }
}

/// Steps towards the next trading time: positive while the market is closed.
spec fn steps_left(ts: Timestamp) -> int {
    if spec_is_trading_time(ts.day as int, ts.minute as int) {
        0
    } else {
        closed_until(ts.day as int, ts.minute as int) - ts.spec_total()
    }
}

proof fn lemma_total_decomposes(ts: Timestamp)
    requires
        ts.wf(),
    ensures
        trading_at(ts.spec_total()) == spec_is_trading_time(ts.day as int, ts.minute as int),
{
    lemma_fundamental_div_mod_converse(ts.spec_total(), 1440, ts.day as int, ts.minute as int);
}

/// Moving forward by at most one session from a closed moment either reaches
/// trading time or stays within the same closed period.
proof fn lemma_step_from_closed(a: Timestamp, b: Timestamp, interval: int)
    requires
        a.wf(),
        b.wf(),
        1 <= interval <= 1380,
        !spec_is_trading_time(a.day as int, a.minute as int),
        b.spec_total() == a.spec_total() + interval,
        b.day == a.day || b.day == a.day + 1,
    ensures
        closed_until(a.day as int, a.minute as int) > a.spec_total(),
        !spec_is_trading_time(b.day as int, b.minute as int) ==> closed_until(
            b.day as int,
            b.minute as int,
        ) == closed_until(a.day as int, a.minute as int) && b.spec_total() < closed_until(
            a.day as int,
            a.minute as int,
        ),
        steps_left(b) < steps_left(a),
{
    let d = a.day as int;
    assert((d + 1) % 7 == if d % 7 == 6 {
        0
    } else {
        d % 7 + 1
    });
}

/// Trading calendar for a 23-hour, 5-day futures session.
#[derive(Debug, Clone, Copy)]
pub struct TradingCalendar {}

impl Default for TradingCalendar {
    fn default() -> (r: Self) {
        TradingCalendar::new()
    }
}

impl TradingCalendar {
    /// The trading calendar.
    pub fn new() -> (r: Self) {
        TradingCalendar {  }
    }

    /// Whether `day` holds trading time: every day but Saturday.
    pub fn is_trading_day(&self, day: u32) -> (r: bool)
        ensures
            r == spec_is_session_day(day as int),
            r == (day % 7 != 5),
    {
        day % 7 != 5
    }

    /// Whether the market is open at `timestamp`.
    pub fn is_trading_time(&self, timestamp: &Timestamp) -> (r: bool)
        ensures
            r == spec_is_trading_time(timestamp.day as int, timestamp.minute as int),
    {
        let weekday: u32 = timestamp.day % 7;
        let minute: u32 = timestamp.minute;
        if weekday == 4 {
            minute < MAINTENANCE_START
        } else if weekday == 5 {
            false
        } else if weekday == 6 {
            minute >= MAINTENANCE_END
        } else {
            minute < MAINTENANCE_START || minute >= MAINTENANCE_END
        }
    }

    /// `ts` moved `interval` minutes forward, carried into the next day when needed.
    fn advance(ts: Timestamp, interval: u32) -> (r: Timestamp)
        requires
            ts.wf(),
            interval <= 1380,
            ts.day < u32::MAX,
        ensures
            r.wf(),
            r.spec_total() == ts.spec_total() + interval,
            r.day == ts.day || r.day == ts.day + 1,
    {
        let mut next = Timestamp::new(ts.day, ts.minute + interval);
        if next.minute >= MINUTES_PER_DAY {
            next.day = next.day + 1;
            next.minute = next.minute - MINUTES_PER_DAY;
        }
        next
    }

    /// The first trading time among the moments `interval`, `2 * interval`, ...
    /// minutes after `current`.
    pub fn next_trading_time(&self, current: &Timestamp, interval_minutes: u32) -> (r: Timestamp)
        requires
            current.wf(),
            1 <= interval_minutes <= SESSION_MINUTES,
            current.day + 4 <= u32::MAX,
        ensures
            is_next_trading_time(*current, r, interval_minutes as int),
            r.day <= current.day + 4,
    {
        let c = *current;
        let mut next = Self::advance(c, interval_minutes);
        let ghost mut k: int = 1;
        proof {
            assert(next.spec_total() == step_moment(c, k, interval_minutes as int));
        }
        while !self.is_trading_time(&next)
            invariant
                next.wf(),
                c.wf(),
                c.day + 4 <= u32::MAX,
                1 <= interval_minutes <= 1380,
                k >= 1,
                next.spec_total() == step_moment(c, k, interval_minutes as int),
                forall|j: int|
                    1 <= j < k ==> !trading_at(#[trigger] step_moment(c, j, interval_minutes as int)),
                next.day <= c.day + 4,
                !spec_is_trading_time(next.day as int, next.minute as int) ==> closed_until(
                    next.day as int,
                    next.minute as int,
                ) <= (c.day + 3) * 1440 + 1080,
            decreases steps_left(next),
        {
            proof {
                lemma_total_decomposes(next);
                assert(closed_until(next.day as int, next.minute as int) > next.spec_total())
                    by {
                    let d = next.day as int;
                    assert((d + 1) % 7 == if d % 7 == 6 {
                        0
                    } else {
                        d % 7 + 1
                    });
                };
            }
            let prev = next;
            next = Self::advance(next, interval_minutes);
            proof {
                lemma_step_from_closed(prev, next, interval_minutes as int);
                assert(step_moment(c, k + 1, interval_minutes as int) == step_moment(
                    c,
                    k,
                    interval_minutes as int,
                ) + interval_minutes) by (nonlinear_arith);
                k = k + 1;
            }
        }
        proof {
            assert(is_next_trading_time(c, next, interval_minutes as int));
        }
        next
    }

    /// `num_bars` consecutive trading times, `interval_minutes` apart in the
    /// sense of `next_trading_time`, starting at the start moment when the
    /// market is open then, else at the first trading time after it.
    pub fn generate_trading_times(
        &self,
        start_day: u32,
        start_minute: u32,
        num_bars: usize,
        interval_minutes: u32,
    ) -> (r: Vec<Timestamp>)
        requires
            start_minute < MINUTES_PER_DAY,
            1 <= interval_minutes <= SESSION_MINUTES,
            start_day + 4 * (num_bars + 1) <= u32::MAX,
        ensures
            r@.len() == num_bars,
            forall|i: int|
                0 <= i < r@.len() ==> r@[i].wf() && spec_is_trading_time(
                    r@[i].day as int,
                    r@[i].minute as int,
                ),
            forall|i: int|
                0 <= i < r@.len() ==> {
                    &&& !(MAINTENANCE_START <= (#[trigger] r@[i]).minute < MAINTENANCE_END)
                    &&& r@[i].day % 7 == 4 ==> r@[i].minute < MAINTENANCE_START
                    &&& r@[i].day % 7 != 5
                },
            r@.len() > 0 ==> {
                let start = Timestamp { day: start_day, minute: start_minute };
                if spec_is_trading_time(start_day as int, start_minute as int) {
                    r@[0] == start
                } else {
                    is_next_trading_time(start, r@[0], interval_minutes as int)
                }
            },
            forall|i: int|
                0 <= i < r@.len() - 1 ==> is_next_trading_time(
                    #[trigger] r@[i],
                    r@[i + 1],
                    interval_minutes as int,
                ),
    {
        let start = Timestamp::new(start_day, start_minute);
        let mut times: Vec<Timestamp> = Vec::with_capacity(num_bars);
        let mut current = start;
        while !self.is_trading_time(&current)
            invariant
                current.wf(),
                start.wf(),
                start.day == start_day,
                start.minute == start_minute,
                1 <= interval_minutes <= 1380,
                start_day + 4 * (num_bars + 1) <= u32::MAX,
                current == start || (!spec_is_trading_time(start_day as int, start_minute as int)
                    && is_next_trading_time(start, current, interval_minutes as int)
                    && current.day <= start_day + 4),
            decreases
                if spec_is_trading_time(current.day as int, current.minute as int) {
                    0int
                } else {
                    1int
                },
        {
            current = self.next_trading_time(&current, interval_minutes);
        }
        let ghost first = current;
        let mut i: usize = 0;
        while i < num_bars
            invariant
                i <= num_bars,
                times@.len() == i,
                current.wf(),
                spec_is_trading_time(current.day as int, current.minute as int),
                1 <= interval_minutes <= 1380,
                start_day + 4 * (num_bars + 1) <= u32::MAX,
                current.day <= start_day + 4 * (i + 1),
                i == 0 ==> current == first,
                i > 0 ==> is_next_trading_time(times@[i - 1], current, interval_minutes as int),
                i > 0 ==> times@[0] == first,
                forall|j: int|
                    0 <= j < times@.len() ==> times@[j].wf() && spec_is_trading_time(
                        times@[j].day as int,
                        times@[j].minute as int,
                    ),
                forall|j: int|
                    0 <= j < times@.len() - 1 ==> is_next_trading_time(
                        #[trigger] times@[j],
                        times@[j + 1],
                        interval_minutes as int,
                    ),
            decreases num_bars - i,
        {
            times.push(current);
            let prev = current;
            current = self.next_trading_time(&current, interval_minutes);
            i = i + 1;
            proof {
                assert(times@[i - 1] == prev);
            }
        }
        proof {
            assert forall|j: int| 0 <= j < times@.len() implies {
                &&& !(MAINTENANCE_START <= (#[trigger] times@[j]).minute < MAINTENANCE_END)
                &&& times@[j].day % 7 == 4 ==> times@[j].minute < MAINTENANCE_START
                &&& times@[j].day % 7 != 5
            } by {
                lemma_trading_time_outside_closures(times@[j].day as int, times@[j].minute as int);
            }
        }
        times
    }

    /// The trading times of an intraday price path over `num_days` sessions:
    /// as many bars as whole intervals fit in a 23-hour session, per day,
    /// from `generate_trading_times`.
    pub fn session_bar_times(
        &self,
        num_days: usize,
        interval_minutes: u32,
        start_day: u32,
        start_minute: u32,
    ) -> (r: Vec<Timestamp>)
        requires
            start_minute < MINUTES_PER_DAY,
            1 <= interval_minutes <= SESSION_MINUTES,
            num_days * (SESSION_MINUTES / interval_minutes) <= usize::MAX,
            start_day + 4 * (num_days * (SESSION_MINUTES / interval_minutes) + 1) <= u32::MAX,
        ensures
            r@.len() == num_days * (SESSION_MINUTES / interval_minutes),
            forall|i: int|
                0 <= i < r@.len() ==> r@[i].wf() && spec_is_trading_time(
                    r@[i].day as int,
                    r@[i].minute as int,
                ),
            r@.len() > 0 ==> {
                let start = Timestamp { day: start_day, minute: start_minute };
                if spec_is_trading_time(start_day as int, start_minute as int) {
                    r@[0] == start
                } else {
                    is_next_trading_time(start, r@[0], interval_minutes as int)
                }
            },
            forall|i: int|
                0 <= i < r@.len() - 1 ==> is_next_trading_time(
                    #[trigger] r@[i],
                    r@[i + 1],
                    interval_minutes as int,
                ),
    {
        let points_per_day: usize = (SESSION_MINUTES / interval_minutes) as usize;
        let total_points: usize = num_days * points_per_day;
        self.generate_trading_times(start_day, start_minute, total_points, interval_minutes)
    }

    /// Signed time from `from` to `to`, in minutes; divided by 1440 it gives
    /// the elapsed calendar days.
    pub fn fractional_days_between(&self, from: &Timestamp, to: &Timestamp) -> (r: i64)
        ensures
            r == to.spec_total() - from.spec_total(),
    {
        let from_minutes: u64 = from.total_minutes();
        let to_minutes: u64 = to.total_minutes();
        proof {
            assert(from.day as int * 1440 <= 4294967295 * 1440) by (nonlinear_arith)
                requires
                    from.day <= 4294967295,
            ;
            assert(to.day as int * 1440 <= 4294967295 * 1440) by (nonlinear_arith)
                requires
                    to.day <= 4294967295,
            ;
        }
        to_minutes as i64 - from_minutes as i64
    }

    /// Days to expiration, in minutes: 0 after the expiration day; on the
    /// expiration day the minutes left until 14:30 (0 from then on); before
    /// it, 1440 for each day in `[current.day, expiration_day)` that holds
    /// trading time. Divided by 1440 it gives the days to expiration.
    pub fn calculate_dte(&self, current: &Timestamp, expiration_day: u32) -> (r: u64)
        ensures
            r == spec_dte_minutes(*current, expiration_day as int),
    {
        if current.day > expiration_day {
            return 0;
        }
        if current.day == expiration_day {
            if current.minute >= EXPIRATION_MINUTE {
                return 0;
            }
            return (EXPIRATION_MINUTE - current.minute) as u64;
        }
        let days: u32 = self.trading_days_between(current.day, expiration_day);
        days as u64 * MINUTES_PER_DAY as u64
    }

    /// The first day after `day` that holds trading time.
    pub fn next_trading_day(&self, day: u32) -> (r: u32)
        requires
            day + 2 <= u32::MAX,
        ensures
            r > day,
            spec_is_session_day(r as int),
            forall|t: int| day < t < r ==> !spec_is_session_day(t),
    {
        let mut candidate: u32 = day + 1;
        while !self.is_trading_day(candidate)
            invariant
                day < candidate <= day + 2,
                day + 2 <= u32::MAX,
                forall|t: int| day < t < candidate ==> !spec_is_session_day(t),
                candidate == day + 2 ==> spec_is_session_day(candidate as int),
            decreases day + 2 - candidate,
        {
            candidate = candidate + 1;
        }
        candidate
    }

    /// Number of days in `[start, end)` that hold trading time.
    pub fn trading_days_between(&self, start: u32, end: u32) -> (r: u32)
        ensures
            r == count_session_days(start as int, end as int),
    {
        if end <= start {
            return 0;
        }
        let mut count: u32 = 0;
        let mut d: u32 = start;
        while d < end
            invariant
                start <= d <= end,
                count == count_session_days(start as int, d as int),
                count <= d - start,
            decreases end - d,
        {
            if self.is_trading_day(d) {
                count = count + 1;
            }
            d = d + 1;
        }
        count
    }
}

/// Trading times never fall in the daily maintenance window from 17:00 to
/// 18:00, on Friday from 17:00 on, or on Saturday.
pub proof fn lemma_trading_time_outside_closures(day: int, minute: int)
    requires
        spec_is_trading_time(day, minute),
    ensures
        !(1020 <= minute < 1080),
        day % 7 == 4 ==> minute < 1020,
        day % 7 != 5,
{
}

} // verus!
