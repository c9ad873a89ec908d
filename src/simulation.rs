//! The decisions of the bar-by-bar simulation and the ledger operations it
//! performs on the event store.
//!
//! Prices, strikes and premiums are values of a type parameter `P`; the
//! caller prices the options and hands the results in.
use vstd::prelude::*;
use crate::calendar::{nth_trading_day_after, spec_calculate_dte, spec_is_trading_day, Calendar, Day, TimeOfDay};
use crate::events::{
    moment_le, opened_before, CashFlow, CloseReason, Event, EventStore, LegId, OptionContract,
    OptionType, PositionId, Side,
};
use crate::triggers::RollDecision;

verus! {

/// A position held by the simulation: a put and a call leg on the same
/// underlying, sharing a side and an expiration day.
#[derive(Debug, Clone, Copy)]
pub struct OpenPosition<P> {
    pub position_id: PositionId,
    pub put_leg: LegId,
    pub call_leg: LegId,
    pub entry_day: Day,
    pub expiration_day: Day,
    pub side: Side,
    pub entry_price: P,
    pub put_strike: P,
    pub call_strike: P,
    pub put_entry_premium: P,
    pub call_entry_premium: P,
}

/// What the simulation does at one bar.
#[derive(Debug, Clone, Copy, PartialEq, Eq, Structural)]
pub enum BarAction {
    /// Not a trading day: nothing happens.
    Skip,
    /// No position is held: open one.
    Open,
    /// Keep the held position.
    Hold,
    /// Close the held position and open its replacement.
    Roll,
}

/// How the legs of a closing position are valued.
#[derive(Debug, Clone, Copy, PartialEq, Eq, Structural)]
pub enum CloseValuation {
    /// By the pricing model, while time to expiration remains.
    Mark,
    /// By intrinsic value, at or after expiration.
    Intrinsic,
}

/// The action at a bar of `day`: skip days that do not trade; with a held
/// position, roll on any roll decision and hold otherwise; with none, open.
pub open spec fn spec_bar_action<P>(day: Day, decision: Option<RollDecision<P>>) -> BarAction {
    if !spec_is_trading_day(day as int) {
        BarAction::Skip
    } else {
        match decision {
            None => BarAction::Open,
            Some(RollDecision::Hold) => BarAction::Hold,
            Some(_) => BarAction::Roll,
        }
    }
}

/// The action of the simulation at a bar of `day`. `decision` is the trigger
/// engine's decision for the held position, or `None` when none is held.
pub fn plan_bar<P>(calendar: &Calendar, day: Day, decision: Option<&RollDecision<P>>) -> (r: BarAction)
    ensures
        r == spec_bar_action(day, match decision {
            Some(d) => Some(*d),
            None => None,
        }),
{
    if !calendar.is_trading_day(day) {
        return BarAction::Skip;
    }
    match decision {
        None => BarAction::Open,
        Some(RollDecision::Hold) => BarAction::Hold,
        Some(_) => BarAction::Roll,
    }
}

/// Legs are marked by the model while trading days to expiration remain,
/// and valued intrinsically from then on.
pub fn close_valuation(calendar: &Calendar, day: Day, expiration_day: Day) -> (r: CloseValuation)
    ensures
        r == if spec_calculate_dte(day as int, expiration_day as int) > 0 {
            CloseValuation::Mark
        } else {
            CloseValuation::Intrinsic
        },
{
    if calendar.calculate_dte(day, expiration_day) > 0 {
        CloseValuation::Mark
    } else {
        CloseValuation::Intrinsic
    }
}

/// The premium `premium` as a cash flow of `side`: received when short,
/// paid when long.
pub open spec fn spec_cash_flow<P>(side: Side, premium: P) -> CashFlow<P> {
    match side {
        Side::Long => CashFlow::Paid(premium),
        Side::Short => CashFlow::Received(premium),
    }
}

/// The premium `premium` as a cash flow of `side`.
pub fn cash_flow<P>(side: Side, premium: P) -> (r: CashFlow<P>)
    ensures
        r == spec_cash_flow(side, premium),
{
    match side {
        Side::Long => CashFlow::Paid(premium),
        Side::Short => CashFlow::Received(premium),
    }
}

/// Whether `legs` are the put and call legs that `open_position` records.
pub open spec fn is_opening_legs<P>(
    legs: Seq<(LegId, OptionContract<P>, CashFlow<P>)>,
    pos: OpenPosition<P>,
    underlying_price: P,
) -> bool {
    &&& legs.len() == 2
    &&& legs[0].0 == pos.put_leg
    &&& legs[0].1 == (OptionContract {
        underlying_price,
        strike: pos.put_strike,
        option_type: OptionType::Put,
        side: pos.side,
        expiration_day: pos.expiration_day,
    })
    &&& legs[0].2 == spec_cash_flow(pos.side, pos.put_entry_premium)
    &&& legs[1].0 == pos.call_leg
    &&& legs[1].1 == (OptionContract {
        underlying_price,
        strike: pos.call_strike,
        option_type: OptionType::Call,
        side: pos.side,
        expiration_day: pos.expiration_day,
    })
    &&& legs[1].2 == spec_cash_flow(pos.side, pos.call_entry_premium)
}

/// Opens a straddle or strangle: the expiration is `entry_dte` trading days
/// after `entry_day`; a new position id and two new leg ids (put, then call)
/// are handed out; a `PositionOpened` event records both legs with their
/// premiums as cash flows of `side`.
pub fn open_position<P: Copy>(
    store: &mut EventStore<P>,
    calendar: &Calendar,
    entry_day: Day,
    entry_time: TimeOfDay,
    entry_dte: u32,
    side: Side,
    underlying_price: P,
    put_strike: P,
    call_strike: P,
    put_premium: P,
    call_premium: P,
) -> (r: OpenPosition<P>)
    requires
        old(store).wf(),
        old(store).spec_next_position_id() < u64::MAX,
        old(store).spec_next_leg_id() + 2 < u64::MAX,
        nth_trading_day_after(entry_day as int, entry_dte as nat) <= u32::MAX,
    ensures
        final(store).wf(),
        r.position_id.0 == old(store).spec_next_position_id(),
        r.put_leg.0 == old(store).spec_next_leg_id(),
        r.call_leg.0 == old(store).spec_next_leg_id() + 1,
        r.entry_day == entry_day,
        r.expiration_day == nth_trading_day_after(entry_day as int, entry_dte as nat),
        r.side == side,
        r.entry_price == underlying_price,
        r.put_strike == put_strike,
        r.call_strike == call_strike,
        r.put_entry_premium == put_premium,
        r.call_entry_premium == call_premium,
        final(store).spec_next_position_id() == old(store).spec_next_position_id() + 1,
        final(store).spec_next_leg_id() == old(store).spec_next_leg_id() + 2,
        final(store).spec_events().drop_last() == old(store).spec_events(),
        final(store).spec_events().len() == old(store).spec_events().len() + 1,
        final(store).spec_events().last() matches Event::PositionOpened {
            position_id,
            timestamp,
            legs,
        } && position_id == r.position_id && timestamp == (entry_day, entry_time)
            && is_opening_legs(legs@, r, underlying_price),
{
    let expiration_day = calendar.expiration_for_dte(entry_day, entry_dte);
    let position_id = store.next_position_id();
    let put_leg = store.next_leg_id();
    let call_leg = store.next_leg_id();
    let pos = OpenPosition {
        position_id,
        put_leg,
        call_leg,
        entry_day,
        expiration_day,
        side,
        entry_price: underlying_price,
        put_strike,
        call_strike,
        put_entry_premium: put_premium,
        call_entry_premium: call_premium,
    };
    let put_contract = OptionContract {
        underlying_price,
        strike: put_strike,
        option_type: OptionType::Put,
        side,
        expiration_day,
    };
    let call_contract = OptionContract {
        underlying_price,
        strike: call_strike,
        option_type: OptionType::Call,
        side,
        expiration_day,
    };
    let legs = vec![
        (put_leg, put_contract, cash_flow(side, put_premium)),
        (call_leg, call_contract, cash_flow(side, call_premium)),
    ];
    let ghost before = store.spec_events();
    store.append(Event::PositionOpened { position_id, timestamp: (entry_day, entry_time), legs });
    proof {
        assert(store.spec_events().drop_last() =~= before);
    }
    pos
}

/// Closes `pos` at `day` and `time`: a `PositionClosed` event records the
/// closing premium of the put and of the call leg, and `reason`.
pub fn close_position<P: Copy>(
    store: &mut EventStore<P>,
    pos: &OpenPosition<P>,
    day: Day,
    time: TimeOfDay,
    put_close: P,
    call_close: P,
    reason: CloseReason,
)
    requires
        old(store).wf(),
        pos.position_id.0 < old(store).spec_next_position_id(),
        opened_before(
            old(store).spec_events(),
            pos.position_id,
            old(store).spec_events().len() as int,
        ),
        forall|j: int|
            0 <= j < old(store).spec_events().len() && (#[trigger] old(
                store,
            ).spec_events()[j]).spec_position_id() == pos.position_id ==> moment_le(
                old(store).spec_events()[j].spec_timestamp(),
                (day, time),
            ),
    ensures
        final(store).wf(),
        final(store).spec_next_position_id() == old(store).spec_next_position_id(),
        final(store).spec_next_leg_id() == old(store).spec_next_leg_id(),
        final(store).spec_events().drop_last() == old(store).spec_events(),
        final(store).spec_events().len() == old(store).spec_events().len() + 1,
        final(store).spec_events().last() matches Event::PositionClosed {
            position_id,
            timestamp,
            close_premiums,
            reason: why,
        } && position_id == pos.position_id && timestamp == (day, time) && why == reason
            && close_premiums@ == seq![(pos.put_leg, put_close), (pos.call_leg, call_close)],
{
    let close_premiums = vec![(pos.put_leg, put_close), (pos.call_leg, call_close)];
    let ghost before = store.spec_events();
    store.append(
        Event::PositionClosed {
            position_id: pos.position_id,
            timestamp: (day, time),
            close_premiums,
            reason,
        },
    );
    proof {
        assert(store.spec_events().drop_last() =~= before);
    }
}


/// Rolls `pos` at `day` and `time`: closes it with the given leg premiums,
/// then opens its replacement, `entry_dte` trading days to expiration, on
/// the same side, at the given price, strikes and premiums.
pub fn roll_position<P: Copy>(
    store: &mut EventStore<P>,
    calendar: &Calendar,
    pos: &OpenPosition<P>,
    day: Day,
    time: TimeOfDay,
    put_close: P,
    call_close: P,
    reason: CloseReason,
    entry_dte: u32,
    underlying_price: P,
    put_strike: P,
    call_strike: P,
    put_premium: P,
    call_premium: P,
) -> (r: OpenPosition<P>)
    requires
        old(store).wf(),
        pos.position_id.0 < old(store).spec_next_position_id(),
        opened_before(
            old(store).spec_events(),
            pos.position_id,
            old(store).spec_events().len() as int,
        ),
        forall|j: int|
            0 <= j < old(store).spec_events().len() && (#[trigger] old(
                store,
            ).spec_events()[j]).spec_position_id() == pos.position_id ==> moment_le(
                old(store).spec_events()[j].spec_timestamp(),
                (day, time),
            ),
        old(store).spec_next_position_id() < u64::MAX,
        old(store).spec_next_leg_id() + 2 < u64::MAX,
        nth_trading_day_after(day as int, entry_dte as nat) <= u32::MAX,
    ensures
        final(store).wf(),
        r.position_id.0 == old(store).spec_next_position_id(),
        r.put_leg.0 == old(store).spec_next_leg_id(),
        r.call_leg.0 == old(store).spec_next_leg_id() + 1,
        r.entry_day == day,
        r.expiration_day == nth_trading_day_after(day as int, entry_dte as nat),
        r.side == pos.side,
        r.entry_price == underlying_price,
        r.put_strike == put_strike,
        r.call_strike == call_strike,
        r.put_entry_premium == put_premium,
        r.call_entry_premium == call_premium,
        final(store).spec_next_position_id() == old(store).spec_next_position_id() + 1,
        final(store).spec_next_leg_id() == old(store).spec_next_leg_id() + 2,
        final(store).spec_events().len() == old(store).spec_events().len() + 2,
        final(store).spec_events().take(old(store).spec_events().len() as int) == old(
            store,
        ).spec_events(),
        final(store).spec_events()[old(store).spec_events().len() as int] matches Event::PositionClosed {
            position_id,
            timestamp,
            close_premiums,
            reason: why,
        } && position_id == pos.position_id && timestamp == (day, time) && why == reason
            && close_premiums@ == seq![(pos.put_leg, put_close), (pos.call_leg, call_close)],
        final(store).spec_events().last() matches Event::PositionOpened {
            position_id,
            timestamp,
            legs,
        } && position_id == r.position_id && timestamp == (day, time)
            && is_opening_legs(legs@, r, underlying_price),
{
    let ghost before = store.spec_events();
    close_position(store, pos, day, time, put_close, call_close, reason);
    let ghost closed = store.spec_events();
    let next = open_position(
        store,
        calendar,
        day,
        time,
        entry_dte,
        pos.side,
        underlying_price,
        put_strike,
        call_strike,
        put_premium,
        call_premium,
    );
    proof {
        assert(store.spec_events().take(before.len() as int) =~= before);
        assert(store.spec_events()[before.len() as int] == closed.last());
    }
    next
}

} // verus!
