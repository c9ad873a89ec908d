//! Synthetic daily trading calendar.
//!
//! Day 0 is a Monday; `day % 7` gives the weekday (0 = Monday ... 6 = Sunday).
//! Every day but Saturday is a trading day. Options expire at 14:30 and the roll
//! trigger fires at 14:00.
use vstd::prelude::*;
use crate::text::{decimal, push_decimal, push_weekday, weekday_name};

verus! {

/// Trading day index, counted from day 0 (a Monday).
pub type Day = u32;

/// Time of day in minutes from midnight (0 to 1439).
pub type TimeOfDay = u16;

/// Default roll trigger time: 14:00.
pub const ROLL_TRIGGER_TIME: u16 = 840;

/// Default option expiration time: 14:30.
pub const EXPIRATION_TIME: u16 = 870;

/// Every day but Saturday trades.
pub open spec fn spec_is_trading_day(day: int) -> bool {
    day % 7 != 5
}

/// The first trading day strictly after `day`.
pub open spec fn spec_next_trading_day(day: int) -> int {
    if (day + 1) % 7 == 5 {
        day + 2
    } else {
        day + 1
    }
}

/// Number of trading days in `[start, end)`.
pub open spec fn count_trading_days(start: int, end: int) -> nat
    decreases end - start,
{
    if end <= start {
        0
    } else {
        count_trading_days(start, end - 1) + if spec_is_trading_day(end - 1) {
            1nat
        } else {
            0nat
        }
    }
}

/// The trading day reached by moving `n` trading days forward from `day`.
pub open spec fn nth_trading_day_after(day: int, n: nat) -> int
    decreases n,
{
    if n == 0 {
        day
    } else {
        spec_next_trading_day(nth_trading_day_after(day, (n - 1) as nat))
    }
}

/// Trading days left from `current_day` until `expiration_day`, 0 once it is reached.
pub open spec fn spec_calculate_dte(current_day: int, expiration_day: int) -> nat {
    if expiration_day <= current_day {
        0
    } else {
        count_trading_days(current_day, expiration_day)
    }
}

pub proof fn lemma_next_trading_day(day: int)
    requires
        day >= 0,
    ensures
        spec_next_trading_day(day) > day,
        spec_next_trading_day(day) <= day + 2,
        spec_is_trading_day(spec_next_trading_day(day)),
        forall|t: int| day < t < spec_next_trading_day(day) ==> !spec_is_trading_day(t),
{
}

pub proof fn lemma_count_bounded(start: int, end: int)
    ensures
        count_trading_days(start, end) <= if end <= start {
            0
        } else {
            end - start
        },
    decreases end - start,
{
    if end > start {
        lemma_count_bounded(start, end - 1);
    }
}

/// Removing the first day of the range drops it from the count.
pub proof fn lemma_count_drop_first(start: int, end: int)
    requires
        start < end,
    ensures
        count_trading_days(start, end) == count_trading_days(start + 1, end) + if spec_is_trading_day(
            start,
        ) {
            1nat
        } else {
            0nat
        },
    decreases end - start,
{
    if end - 1 > start {
        lemma_count_drop_first(start, end - 1);
        assert(count_trading_days(start + 1, end) == count_trading_days(start + 1, end - 1) + if spec_is_trading_day(end - 1) {
            1nat
        } else {
            0nat
        });
    } else {
        assert(count_trading_days(start, start) == 0);
        assert(count_trading_days(start + 1, end) == 0);
    }
}

/// Moving `n` trading days forward never goes backwards, and more steps go further.
pub proof fn lemma_nth_trading_day_monotone(day: int, k: nat, n: nat)
    requires
        day >= 0,
        k <= n,
    ensures
        day <= nth_trading_day_after(day, k) <= nth_trading_day_after(day, n),
        k < n ==> nth_trading_day_after(day, k) < nth_trading_day_after(day, n),
    decreases n,
{
    if n > 0 {
        lemma_nth_trading_day_monotone(day, if k < n {
            k
        } else {
            (n - 1) as nat
        }, (n - 1) as nat);
        lemma_next_trading_day(nth_trading_day_after(day, (n - 1) as nat));
    }
}

/// A synthetic trading calendar for backtesting at daily resolution.
#[derive(Debug, Clone, Copy)]
pub struct Calendar {
    /// Roll trigger time (default 14:00).
    pub roll_trigger_time: TimeOfDay,
    /// Expiration time (default 14:30).
    pub expiration_time: TimeOfDay,
}

impl Default for Calendar {
    fn default() -> (r: Self)
        ensures
            r.roll_trigger_time == ROLL_TRIGGER_TIME,
            r.expiration_time == EXPIRATION_TIME,
    {
        Calendar::new()
    }
}

impl Calendar {
    /// A calendar with the default roll (14:00) and expiration (14:30) times.
    pub fn new() -> (r: Self)
        ensures
            r.roll_trigger_time == ROLL_TRIGGER_TIME,
            r.expiration_time == EXPIRATION_TIME,
    {
        Calendar { roll_trigger_time: ROLL_TRIGGER_TIME, expiration_time: EXPIRATION_TIME }
    }

    /// Whether `day` is a trading day: every day but Saturday.
    pub fn is_trading_day(&self, day: Day) -> (r: bool)
        ensures
            r == spec_is_trading_day(day as int),
            r == (day % 7 != 5),
    {
        day % 7 != 5
    }

    /// The first trading day after `day`.
    pub fn next_trading_day(&self, day: Day) -> (r: Day)
        requires
            spec_next_trading_day(day as int) <= u32::MAX,
        ensures
            r == spec_next_trading_day(day as int),
            r > day,
            spec_is_trading_day(r as int),
            forall|t: int| day < t < r ==> !spec_is_trading_day(t),
    {
        proof {
            lemma_next_trading_day(day as int);
        }
        let mut candidate: Day = day + 1;
        while !self.is_trading_day(candidate)
            invariant
                day < candidate <= spec_next_trading_day(day as int),
                spec_next_trading_day(day as int) <= u32::MAX,
                forall|t: int| day < t < candidate ==> !spec_is_trading_day(t),
            decreases spec_next_trading_day(day as int) - candidate,
        {
            candidate = candidate + 1;
        }
        candidate
    }

    /// Number of trading days in `[start, end)`.
    pub fn trading_days_between(&self, start: Day, end: Day) -> (r: u32)
        ensures
            r == count_trading_days(start as int, end as int),
    {
        let mut count: u32 = 0;
        let mut d: Day = start;
        if end <= start {
            return 0;
        }
        while d < end
            invariant
                start <= d <= end,
                count == count_trading_days(start as int, d as int),
            decreases end - d,
        {
            proof {
                lemma_count_bounded(start as int, d as int);
            }
            if self.is_trading_day(d) {
                count = count + 1;
            }
            d = d + 1;
        }
        count
    }

    /// The expiration moment of `day`: the day and the expiration time.
    pub fn expiration_datetime(&self, day: Day) -> (r: (Day, TimeOfDay))
        ensures
            r == (day, self.expiration_time),
    {
        (day, self.expiration_time)
    }

    /// The roll trigger moment of `day`: the day and the roll trigger time.
    pub fn roll_trigger_datetime(&self, day: Day) -> (r: (Day, TimeOfDay))
        ensures
            r == (day, self.roll_trigger_time),
    {
        (day, self.roll_trigger_time)
    }

    /// Days to expiration: trading days in `[current_day, expiration_day)`,
    /// 0 once `current_day` has reached `expiration_day`.
    pub fn calculate_dte(&self, current_day: Day, expiration_day: Day) -> (r: u32)
        ensures
            r == spec_calculate_dte(current_day as int, expiration_day as int),
    {
        if expiration_day <= current_day {
            return 0;
        }
        self.trading_days_between(current_day, expiration_day)
    }

    /// The day reached by moving `target_dte` trading days forward from `current_day`.
    pub fn expiration_for_dte(&self, current_day: Day, target_dte: u32) -> (r: Day)
        requires
            nth_trading_day_after(current_day as int, target_dte as nat) <= u32::MAX,
        ensures
            r == nth_trading_day_after(current_day as int, target_dte as nat),
    {
        let mut day: Day = current_day;
        let mut trading_days_count: u32 = 0;
        while trading_days_count < target_dte
            invariant
                trading_days_count <= target_dte,
                day == nth_trading_day_after(current_day as int, trading_days_count as nat),
                nth_trading_day_after(current_day as int, target_dte as nat) <= u32::MAX,
            decreases target_dte - trading_days_count,
        {
            proof {
                lemma_nth_trading_day_monotone(
                    current_day as int,
                    (trading_days_count + 1) as nat,
                    target_dte as nat,
                );
            }
            day = self.next_trading_day(day);
            trading_days_count = trading_days_count + 1;
        }
        day
    }
}

/// Days to expiration are 0 once the current day reaches the expiration day;
/// before that, each trading day that passes removes exactly one, and no day
/// that passes adds any.
pub proof fn lemma_dte_counts_down(current_day: int, expiration_day: int)
    requires
        0 <= current_day,
    ensures
        current_day >= expiration_day ==> spec_calculate_dte(current_day, expiration_day) == 0,
        current_day < expiration_day && spec_is_trading_day(current_day) ==> spec_calculate_dte(
            current_day + 1,
            expiration_day,
        ) + 1 == spec_calculate_dte(current_day, expiration_day),
        spec_calculate_dte(current_day + 1, expiration_day) <= spec_calculate_dte(
            current_day,
            expiration_day,
        ),
{
    if current_day < expiration_day {
        lemma_count_drop_first(current_day, expiration_day);
    }
}


/// Counting over `[start, end)` splits at any `mid` between them.
pub proof fn lemma_count_split(start: int, mid: int, end: int)
    requires
        start <= mid <= end,
    ensures
        count_trading_days(start, end) == count_trading_days(start, mid) + count_trading_days(
            mid,
            end,
        ),
    decreases end - mid,
{
    if end > mid {
        lemma_count_split(start, mid, end - 1);
    }
}

proof fn lemma_count_none(start: int, end: int)
    requires
        forall|t: int| start <= t < end ==> !spec_is_trading_day(t),
    ensures
        count_trading_days(start, end) == 0,
    decreases end - start,
{
    if end > start {
        lemma_count_none(start, end - 1);
    }
}

/// From a trading day, the expiration `n` trading days ahead leaves exactly
/// `n` days to expiration.
pub proof fn lemma_expiration_round_trip(current_day: int, n: nat)
    requires
        current_day >= 0,
        spec_is_trading_day(current_day),
    ensures
        spec_calculate_dte(current_day, nth_trading_day_after(current_day, n)) == n,
        spec_is_trading_day(nth_trading_day_after(current_day, n)),
    decreases n,
{
    if n > 0 {
        let prev = nth_trading_day_after(current_day, (n - 1) as nat);
        let next = nth_trading_day_after(current_day, n);
        lemma_expiration_round_trip(current_day, (n - 1) as nat);
        lemma_nth_trading_day_monotone(current_day, 0, (n - 1) as nat);
        lemma_next_trading_day(prev);
        lemma_count_split(current_day, prev, next);
        lemma_count_drop_first(prev, next);
        lemma_count_none(prev + 1, next);
    }
}

/// The weekday and week of `day`, as in `Tue W3`.
pub open spec fn spec_format_day(day: int) -> Seq<char> {
    weekday_name(day % 7) + seq![' ', 'W'] + decimal((day / 7) as nat)
}

/// The weekday and week number of `day`, as in `Tue W3`.
pub fn format_day(day: Day) -> (r: String)
    ensures
        r@ == spec_format_day(day as int),
{
    let mut s = String::new();
    push_weekday(&mut s, day);
    proof {
        reveal_strlit(" W");
    }
    s.append(" W");
    push_decimal(&mut s, day / 7);
    proof {
        assert(s@ =~= spec_format_day(day as int));
    }
    s
}

} // verus!
