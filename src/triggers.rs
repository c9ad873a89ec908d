//! Roll trigger engine: decides, bar by bar, whether an open position is
//! held or rolled.
//!
//! Rules are checked in the order configured, and the first one that holds
//! decides. Conditions on prices are measured by the caller and handed in
//! as readings, one per rule.
use vstd::prelude::*;
use crate::calendar::{spec_calculate_dte, Calendar, Day, TimeOfDay};

verus! {

/// Which legs a rule rolls.
#[derive(Debug, Clone, Copy, PartialEq, Eq, Structural)]
pub enum LegScope {
    Both,
    Put,
    Call,
}

/// The condition of a roll rule.
#[derive(Debug, Clone, Copy, PartialEq, Eq, Structural)]
pub enum TriggerKind {
    /// The roll time on the expiration day has come.
    Time,
    /// Days to expiration are at most `max_dte`.
    Dte { max_dte: i64 },
    /// The unrealized gain reached the target share of the entry premium.
    ProfitTarget,
    /// The underlying moved at least the configured number of points.
    PriceMove,
    /// A rule type this engine does not know; it never holds.
    Unrecognized,
}

/// One configured roll rule.
#[derive(Debug, Clone, Copy, PartialEq, Eq, Structural)]
pub struct TriggerRule {
    pub kind: TriggerKind,
    pub legs: LegScope,
}

/// Why a roll was decided.
#[derive(Debug, Clone, Copy)]
pub enum RollReason<P> {
    /// The roll time on the expiration day (e.g. 14:00).
    TimeTrigger,
    /// Days to expiration fell to the threshold.
    DteThreshold { remaining_dte: u32 },
    /// Profit target reached, with the gain in percent of the entry premium.
    ProfitTarget { profit_percent: P },
    /// Loss limit reached.
    StopLoss { loss_percent: P },
    /// The underlying moved by `points_moved` since entry.
    PriceMove { points_moved: P },
}

/// The outcome of evaluating the roll rules.
#[derive(Debug, Clone, Copy)]
pub enum RollDecision<P> {
    Hold,
    RollBoth { reason: RollReason<P> },
    RollPut { reason: RollReason<P> },
    RollCall { reason: RollReason<P> },
}

/// The live state of an open position, as the engine sees it.
#[derive(Debug, Clone, Copy)]
pub struct PositionState<P> {
    pub position_id: u64,
    pub entry_day: Day,
    pub expiration_day: Day,
    pub entry_price: P,
    pub current_price: P,
    pub put_strike: P,
    pub call_strike: P,
    pub put_entry_premium: P,
    pub call_entry_premium: P,
    pub last_rolled_put: Option<Day>,
    pub last_rolled_call: Option<Day>,
}

/// A roll of the legs that `legs` names, for `reason`.
pub open spec fn scoped<P>(legs: LegScope, reason: RollReason<P>) -> RollDecision<P> {
    match legs {
        LegScope::Put => RollDecision::RollPut { reason },
        LegScope::Call => RollDecision::RollCall { reason },
        LegScope::Both => RollDecision::RollBoth { reason },
    }
}

/// Whether `rule` holds, given its reading, the days to expiration and
/// whether the roll time of the expiration day has come.
pub open spec fn rule_holds<P>(rule: TriggerRule, reading: Option<P>, dte: int, at_roll_time: bool) -> bool {
    match rule.kind {
        TriggerKind::Time => at_roll_time,
        TriggerKind::Dte { max_dte } => dte <= max_dte,
        TriggerKind::ProfitTarget => reading is Some,
        TriggerKind::PriceMove => reading is Some,
        TriggerKind::Unrecognized => false,
    }
}

/// The decision of `rule` when it holds.
pub open spec fn rule_decision<P>(rule: TriggerRule, reading: Option<P>, dte: int) -> RollDecision<P> {
    match rule.kind {
        TriggerKind::Time => scoped(rule.legs, RollReason::TimeTrigger),
        TriggerKind::Dte { .. } => scoped(
            rule.legs,
            RollReason::DteThreshold { remaining_dte: dte as u32 },
        ),
        TriggerKind::ProfitTarget => scoped(
            rule.legs,
            RollReason::ProfitTarget { profit_percent: reading->0 },
        ),
        TriggerKind::PriceMove => scoped(
            rule.legs,
            RollReason::PriceMove { points_moved: reading->0 },
        ),
        TriggerKind::Unrecognized => RollDecision::Hold,
    }
}

/// The decision of the first rule from index `i` on that holds; when none
/// does, a roll of both legs once the roll time of the expiration day has
/// come, else hold.
pub open spec fn first_decision<P>(
    rules: Seq<TriggerRule>,
    readings: Seq<Option<P>>,
    dte: int,
    at_roll_time: bool,
    i: int,
) -> RollDecision<P>
    decreases rules.len() - i,
{
    if i >= rules.len() || i < 0 {
        if at_roll_time {
            RollDecision::RollBoth { reason: RollReason::TimeTrigger }
        } else {
            RollDecision::Hold
        }
    } else if rule_holds(rules[i], readings[i], dte, at_roll_time) {
        rule_decision(rules[i], readings[i], dte)
    } else {
        first_decision(rules, readings, dte, at_roll_time, i + 1)
    }
}

/// Whether the roll time of the expiration day has come.
pub open spec fn spec_at_roll_time(
    current_day: Day,
    current_time: TimeOfDay,
    expiration_day: Day,
    roll_time: TimeOfDay,
) -> bool {
    current_day == expiration_day && current_time >= roll_time
}

/// The decision of the engine for a position expiring on `expiration_day`.
pub open spec fn spec_evaluate<P>(
    rules: Seq<TriggerRule>,
    readings: Seq<Option<P>>,
    expiration_day: Day,
    current_day: Day,
    current_time: TimeOfDay,
    roll_time: TimeOfDay,
) -> RollDecision<P> {
    first_decision(
        rules,
        readings,
        spec_calculate_dte(current_day as int, expiration_day as int) as int,
        spec_at_roll_time(current_day, current_time, expiration_day, roll_time),
        0,
    )
}

/// Evaluates `rules` in order for `position` and returns the decision of the
/// first rule that holds. With none, both legs roll once the roll time of
/// the expiration day has come, so that no position is held past it; else
/// the position is held.
///
/// `readings[i]` is the measurement of rule `i` when it is a price rule:
/// for a profit target, `Some(profit_percent)` when the unrealized gain
/// reached the target; for a price move, `Some(points_moved)` when the move
/// reached the threshold; `None` otherwise. Other rules ignore it.
pub fn evaluate_triggers<P: Copy>(
    position: &PositionState<P>,
    rules: &Vec<TriggerRule>,
    readings: &Vec<Option<P>>,
    calendar: &Calendar,
    current_day: Day,
    current_time: TimeOfDay,
    roll_time: TimeOfDay,
) -> (r: RollDecision<P>)
    requires
        readings@.len() == rules@.len(),
    ensures
        r == spec_evaluate(
            rules@,
            readings@,
            position.expiration_day,
            current_day,
            current_time,
            roll_time,
        ),
{
    let remaining_dte = calendar.calculate_dte(current_day, position.expiration_day);
    let at_roll_time = current_day == position.expiration_day && current_time >= roll_time;
    let ghost dte = remaining_dte as int;
    let mut i: usize = 0;
    while i < rules.len()
        invariant
            i <= rules@.len(),
            readings@.len() == rules@.len(),
            dte == spec_calculate_dte(current_day as int, position.expiration_day as int),
            dte == remaining_dte as int,
            at_roll_time == spec_at_roll_time(current_day, current_time, position.expiration_day, roll_time),
            first_decision(rules@, readings@, dte, at_roll_time, 0) == first_decision(
                rules@,
                readings@,
                dte,
                at_roll_time,
                i as int,
            ),
        decreases rules@.len() - i,
    {
        let rule = rules[i];
        let reading = readings[i];
        match rule.kind {
            TriggerKind::Time => {
                if at_roll_time {
                    return scope_decision(rule.legs, RollReason::TimeTrigger);
                }
            },
            TriggerKind::Dte { max_dte } => {
                if (remaining_dte as i64) <= max_dte {
                    return scope_decision(rule.legs, RollReason::DteThreshold { remaining_dte });
                }
            },
            TriggerKind::ProfitTarget => {
                if let Some(profit_percent) = reading {
                    return scope_decision(rule.legs, RollReason::ProfitTarget { profit_percent });
                }
            },
            TriggerKind::PriceMove => {
                if let Some(points_moved) = reading {
                    return scope_decision(rule.legs, RollReason::PriceMove { points_moved });
                }
            },
            TriggerKind::Unrecognized => {},
        }
        i = i + 1;
    }
    if at_roll_time {
        return RollDecision::RollBoth { reason: RollReason::TimeTrigger };
    }
    RollDecision::Hold
}

/// A roll of the legs that `legs` names, for `reason`.
fn scope_decision<P>(legs: LegScope, reason: RollReason<P>) -> (r: RollDecision<P>)
    ensures
        r == scoped(legs, reason),
{
    match legs {
        LegScope::Put => RollDecision::RollPut { reason },
        LegScope::Call => RollDecision::RollCall { reason },
        LegScope::Both => RollDecision::RollBoth { reason },
    }
}

proof fn lemma_skip_silent_rules<P>(
    rules: Seq<TriggerRule>,
    readings: Seq<Option<P>>,
    dte: int,
    at_roll_time: bool,
    from: int,
    to: int,
)
    requires
        0 <= from <= to <= rules.len(),
        forall|k: int| from <= k < to ==> !rule_holds(rules[k], readings[k], dte, at_roll_time),
    ensures
        first_decision(rules, readings, dte, at_roll_time, from) == first_decision(
            rules,
            readings,
            dte,
            at_roll_time,
            to,
        ),
    decreases to - from,
{
    if from < to {
        lemma_skip_silent_rules(rules, readings, dte, at_roll_time, from + 1, to);
    }
}

/// When two rules hold at once, the decision is that of the one configured
/// first (provided no rule before it holds), whichever would otherwise be
/// more urgent.
pub proof fn lemma_first_configured_rule_wins<P>(
    rules: Seq<TriggerRule>,
    readings: Seq<Option<P>>,
    expiration_day: Day,
    current_day: Day,
    current_time: TimeOfDay,
    roll_time: TimeOfDay,
    i: int,
    j: int,
)
    requires
        readings.len() == rules.len(),
        0 <= i < j < rules.len(),
        ({
            let dte = spec_calculate_dte(current_day as int, expiration_day as int) as int;
            let at = spec_at_roll_time(current_day, current_time, expiration_day, roll_time);
            &&& rule_holds(rules[i], readings[i], dte, at)
            &&& rule_holds(rules[j], readings[j], dte, at)
            &&& forall|k: int| 0 <= k < i ==> !rule_holds(rules[k], readings[k], dte, at)
        }),
    ensures
        spec_evaluate(rules, readings, expiration_day, current_day, current_time, roll_time)
            == rule_decision(
            rules[i],
            readings[i],
            spec_calculate_dte(current_day as int, expiration_day as int) as int,
        ),
{
    let dte = spec_calculate_dte(current_day as int, expiration_day as int) as int;
    let at = spec_at_roll_time(current_day, current_time, expiration_day, roll_time);
    lemma_skip_silent_rules(rules, readings, dte, at, 0, i);
}

} // verus!
