//! Position lifecycle events and the append-only event store.
//!
//! Prices and premiums are carried as values of a type parameter `P`
//! chosen by the caller; the store never inspects them.
use vstd::prelude::*;
use crate::calendar::{Day, TimeOfDay};

verus! {

/// Unique identifier of a position.
#[derive(Debug, Clone, Copy, PartialEq, Eq, Hash, Structural)]
pub struct PositionId(pub u64);

/// Unique identifier of an option leg.
#[derive(Debug, Clone, Copy, PartialEq, Eq, Hash, Structural)]
pub struct LegId(pub u64);

/// Put or call.
#[derive(Debug, Clone, Copy, PartialEq, Eq, Structural)]
pub enum OptionType {
    Put,
    Call,
}

/// Long (premium paid) or short (premium received).
#[derive(Debug, Clone, Copy, PartialEq, Eq, Structural)]
pub enum Side {
    Long,
    Short,
}

/// The terms of one option leg at a point in time.
#[derive(Debug, Clone)]
pub struct OptionContract<P> {
    pub underlying_price: P,
    pub strike: P,
    pub option_type: OptionType,
    pub side: Side,
    pub expiration_day: Day,
}

/// Why a position was closed.
#[derive(Debug, Clone, Copy, PartialEq, Eq, Structural)]
pub enum CloseReason {
    Expiration,
    StopLoss,
    Manual,
    StrategyExit,
}

/// Why a leg was rolled.
#[derive(Debug, Clone)]
pub enum RollTrigger<P> {
    /// Time-based roll (the roll time on the expiration day).
    TimeTrigger,
    /// Days to expiration fell to the threshold.
    DteThreshold { remaining_dte: u32 },
    /// Profit target reached.
    ProfitTarget { profit_percent: P },
    /// Loss limit reached.
    StopLoss { loss_percent: P },
    /// The underlying moved by a number of points.
    PriceMove { points_moved: P },
    /// A leg's delta crossed a threshold.
    DeltaThreshold { delta: P },
}

/// A premium as a cash flow to the position holder: received when selling,
/// paid when buying.
#[derive(Debug, Clone, Copy)]
pub enum CashFlow<P> {
    Received(P),
    Paid(P),
}

/// A moment of the daily calendar: a day and a time of day.
pub type Moment = (Day, TimeOfDay);

/// Whether moment `a` is not later than moment `b`.
pub open spec fn moment_le(a: Moment, b: Moment) -> bool {
    a.0 < b.0 || (a.0 == b.0 && a.1 <= b.1)
}

/// One transition of a position's lifecycle.
#[derive(Debug)]
pub enum Event<P> {
    /// A position was opened with its legs and their premiums as cash flows.
    PositionOpened {
        position_id: PositionId,
        timestamp: Moment,
        legs: Vec<(LegId, OptionContract<P>, CashFlow<P>)>,
    },
    /// A position was closed, with the premium of each leg at closing.
    PositionClosed {
        position_id: PositionId,
        timestamp: Moment,
        close_premiums: Vec<(LegId, P)>,
        reason: CloseReason,
    },
    /// One leg was closed and replaced by a new contract.
    LegRolled {
        position_id: PositionId,
        leg_id: LegId,
        timestamp: Moment,
        old_contract: OptionContract<P>,
        close_premium: P,
        new_contract: OptionContract<P>,
        open_premium: P,
        trigger: RollTrigger<P>,
    },
    /// A roll was attempted and refused.
    RollRejected { position_id: PositionId, leg_id: LegId, timestamp: Moment, reason: String },
}

impl<P> Event<P> {
    pub open spec fn spec_timestamp(&self) -> Moment {
        match self {
            Event::PositionOpened { timestamp, .. } => *timestamp,
            Event::PositionClosed { timestamp, .. } => *timestamp,
            Event::LegRolled { timestamp, .. } => *timestamp,
            Event::RollRejected { timestamp, .. } => *timestamp,
        }
    }

    pub open spec fn spec_position_id(&self) -> PositionId {
        match self {
            Event::PositionOpened { position_id, .. } => *position_id,
            Event::PositionClosed { position_id, .. } => *position_id,
            Event::LegRolled { position_id, .. } => *position_id,
            Event::RollRejected { position_id, .. } => *position_id,
        }
    }

    /// The moment of this event.
    pub fn timestamp(&self) -> (r: Moment)
        ensures
            r == self.spec_timestamp(),
    {
        match self {
            Event::PositionOpened { timestamp, .. } => *timestamp,
            Event::PositionClosed { timestamp, .. } => *timestamp,
            Event::LegRolled { timestamp, .. } => *timestamp,
            Event::RollRejected { timestamp, .. } => *timestamp,
        }
    }

    /// The position this event belongs to.
    pub fn position_id(&self) -> (r: PositionId)
        ensures
            r == self.spec_position_id(),
    {
        match self {
            Event::PositionOpened { position_id, .. } => *position_id,
            Event::PositionClosed { position_id, .. } => *position_id,
            Event::LegRolled { position_id, .. } => *position_id,
            Event::RollRejected { position_id, .. } => *position_id,
        }
    }
}

/// The events of `events` that belong to position `id`, in order.
pub open spec fn events_of<P>(events: Seq<Event<P>>, id: PositionId) -> Seq<Event<P>>
    decreases events.len(),
{
    if events.len() == 0 {
        Seq::empty()
    } else {
        let rest = events_of(events.drop_last(), id);
        if events.last().spec_position_id() == id {
            rest.push(events.last())
        } else {
            rest
        }
    }
}

/// Whether `events[..upto]` holds a `PositionOpened` event of position `id`.
pub open spec fn opened_before<P>(events: Seq<Event<P>>, id: PositionId, upto: int) -> bool {
    exists|j: int| 0 <= j < upto && #[trigger] events[j] is PositionOpened && events[j].spec_position_id() == id
}

/// Whether `events` holds a `PositionClosed` event of position `id`.
pub open spec fn is_closed_in<P>(events: Seq<Event<P>>, id: PositionId) -> bool {
    exists|j: int| 0 <= j < events.len() && #[trigger] events[j] is PositionClosed && events[j].spec_position_id() == id
}

/// The positions opened in `events[..upto]` that `events` never closes, in
/// the order they were opened.
pub open spec fn open_ids<P>(events: Seq<Event<P>>, upto: int) -> Seq<PositionId>
    decreases upto,
{
    if upto <= 0 {
        Seq::empty()
    } else {
        let rest = open_ids(events, upto - 1);
        let e = events[upto - 1];
        if e is PositionOpened && !is_closed_in(events, e.spec_position_id()) {
            rest.push(e.spec_position_id())
        } else {
            rest
        }
    }
}

/// A position is listed as open exactly when it was opened and never closed.
pub proof fn lemma_open_ids_members<P>(events: Seq<Event<P>>, upto: int, id: PositionId)
    requires
        0 <= upto <= events.len(),
    ensures
        open_ids(events, upto).contains(id) <==> (opened_before(events, id, upto) && !is_closed_in(
            events,
            id,
        )),
    decreases upto,
{
    if upto > 0 {
        lemma_open_ids_members(events, upto - 1, id);
        let rest = open_ids(events, upto - 1);
        let e = events[upto - 1];
        if opened_before(events, id, upto) && !is_closed_in(events, id) {
            if !opened_before(events, id, upto - 1) {
                assert(e is PositionOpened && e.spec_position_id() == id);
                assert(open_ids(events, upto) == rest.push(id));
                assert(open_ids(events, upto)[rest.len() as int] == id);
            } else {
                let k = choose|k: int| rest.len() > k >= 0 && rest[k] == id;
                if e is PositionOpened && !is_closed_in(events, e.spec_position_id()) {
                    assert(open_ids(events, upto)[k] == id);
                }
            }
        }
        if open_ids(events, upto).contains(id) {
            if e is PositionOpened && !is_closed_in(events, e.spec_position_id()) && e.spec_position_id() == id {
                assert(events[upto - 1] is PositionOpened);
            } else {
                let k = choose|k: int| open_ids(events, upto).len() > k >= 0 && open_ids(events, upto)[k] == id;
                if e is PositionOpened && !is_closed_in(events, e.spec_position_id()) {
                    assert(k < rest.len());
                    assert(rest[k] == id);
                }
                assert(rest.contains(id));
            }
        }
    }
}

/// Whether `event` may follow `events` in a log whose next free ids are
/// `next_position_id` and `next_leg_id`: its position id was handed out; a
/// `PositionOpened` event comes first and once for its position, with leg
/// ids that were handed out; any other event follows the opening of its
/// position; and no event is earlier than an earlier event of its position.
pub open spec fn may_follow<P>(
    events: Seq<Event<P>>,
    event: Event<P>,
    next_position_id: nat,
    next_leg_id: nat,
) -> bool {
    &&& event.spec_position_id().0 < next_position_id
    &&& match event {
        Event::PositionOpened { position_id, legs, .. } => {
            &&& !opened_before(events, position_id, events.len() as int)
            &&& forall|l: int| 0 <= l < legs@.len() ==> (#[trigger] legs@[l]).0.0 < next_leg_id
        },
        _ => opened_before(events, event.spec_position_id(), events.len() as int),
    }
    &&& forall|j: int|
        0 <= j < events.len() && (#[trigger] events[j]).spec_position_id()
            == event.spec_position_id() ==> moment_le(events[j].spec_timestamp(), event.spec_timestamp())
}

/// Whether every event of `events` may follow the ones before it.
pub open spec fn is_valid_log<P>(events: Seq<Event<P>>, next_position_id: nat, next_leg_id: nat) -> bool {
    forall|i: int|
        0 <= i < events.len() ==> may_follow(
            events.take(i),
            #[trigger] events[i],
            next_position_id,
            next_leg_id,
        )
}

/// An append-only log of events, with allocation of position and leg ids.
#[derive(Debug)]
pub struct EventStore<P> {
    events: Vec<Event<P>>,
    next_position_id: u64,
    next_leg_id: u64,
}

impl<P> EventStore<P> {
    /// The events in the order they were appended.
    pub closed spec fn spec_events(&self) -> Seq<Event<P>> {
        self.events@
    }

    /// The next position id to hand out.
    pub closed spec fn spec_next_position_id(&self) -> nat {
        self.next_position_id as nat
    }

    /// The next leg id to hand out.
    pub closed spec fn spec_next_leg_id(&self) -> nat {
        self.next_leg_id as nat
    }

    /// Ids start at 1, and every event may follow the ones before it.
    pub open spec fn wf(&self) -> bool {
        &&& self.spec_next_position_id() >= 1
        &&& self.spec_next_leg_id() >= 1
        &&& is_valid_log(self.spec_events(), self.spec_next_position_id(), self.spec_next_leg_id())
    }

    /// An empty store whose ids start at 1.
    pub fn new() -> (r: Self)
        ensures
            r.wf(),
            r.spec_events() == Seq::<Event<P>>::empty(),
            r.spec_next_position_id() == 1,
            r.spec_next_leg_id() == 1,
    {
        EventStore { events: Vec::new(), next_position_id: 1, next_leg_id: 1 }
    }

    /// Adds `event` at the end of the log.
    pub fn append(&mut self, event: Event<P>)
        requires
            old(self).wf(),
            may_follow(
                old(self).spec_events(),
                event,
                old(self).spec_next_position_id(),
                old(self).spec_next_leg_id(),
            ),
        ensures
            final(self).wf(),
            final(self).spec_events() == old(self).spec_events().push(event),
            final(self).spec_next_position_id() == old(self).spec_next_position_id(),
            final(self).spec_next_leg_id() == old(self).spec_next_leg_id(),
    {
        let ghost before = self.events@;
        self.events.push(event);
        proof {
            assert forall|i: int| 0 <= i < self.events@.len() implies may_follow(
                self.events@.take(i),
                #[trigger] self.events@[i],
                self.next_position_id as nat,
                self.next_leg_id as nat,
            ) by {
                if i < before.len() {
                    assert(self.events@.take(i) =~= before.take(i));
                    assert(self.events@[i] == before[i]);
                } else {
                    assert(self.events@.take(i) =~= before);
                }
            }
        }
    }

    /// The events of position `position_id`, in order.
    pub fn events_for_position(&self, position_id: PositionId) -> (r: Vec<&Event<P>>)
        ensures
            r@.len() == events_of(self.spec_events(), position_id).len(),
            forall|k: int| 0 <= k < r@.len() ==> r@[k] == events_of(self.spec_events(), position_id)[k],
    {
        let mut found: Vec<&Event<P>> = Vec::new();
        let mut i: usize = 0;
        while i < self.events.len()
            invariant
                i <= self.events@.len(),
                found@.len() == events_of(self.events@.take(i as int), position_id).len(),
                forall|k: int|
                    0 <= k < found@.len() ==> found@[k] == events_of(
                        self.events@.take(i as int),
                        position_id,
                    )[k],
            decreases self.events@.len() - i,
        {
            let e = &self.events[i];
            proof {
                assert(self.events@.take(i as int + 1).drop_last() =~= self.events@.take(i as int));
            }
            if e.position_id() == position_id {
                found.push(e);
            }
            i = i + 1;
        }
        proof {
            assert(self.events@.take(i as int) =~= self.events@);
        }
        found
    }

    /// Whether the log holds a `PositionClosed` event of `position_id`.
    pub fn is_closed(&self, position_id: PositionId) -> (r: bool)
        ensures
            r == is_closed_in(self.spec_events(), position_id),
    {
        let mut i: usize = 0;
        while i < self.events.len()
            invariant
                i <= self.events@.len(),
                forall|j: int|
                    0 <= j < i ==> !(#[trigger] self.events@[j] is PositionClosed
                        && self.events@[j].spec_position_id() == position_id),
            decreases self.events@.len() - i,
        {
            let e = &self.events[i];
            if let Event::PositionClosed { position_id: id, .. } = e {
                if *id == position_id {
                    return true;
                }
            }
            i = i + 1;
        }
        false
    }

    /// The positions that are opened and not closed, in the order they were
    /// opened: the current positions, derived from the log.
    pub fn open_positions(&self) -> (r: Vec<PositionId>)
        ensures
            r@ == open_ids(self.spec_events(), self.spec_events().len() as int),
    {
        let mut ids: Vec<PositionId> = Vec::new();
        let mut i: usize = 0;
        while i < self.events.len()
            invariant
                i <= self.events@.len(),
                ids@ == open_ids(self.events@, i as int),
            decreases self.events@.len() - i,
        {
            let e = &self.events[i];
            if let Event::PositionOpened { position_id, .. } = e {
                if !self.is_closed(*position_id) {
                    ids.push(*position_id);
                }
            }
            i = i + 1;
        }
        ids
    }

    /// All events, in the order they were appended.
    pub fn all_events(&self) -> (r: &[Event<P>])
        ensures
            r@ == self.spec_events(),
    {
        self.events.as_slice()
    }

    /// Hands out a new position id; ids are never handed out twice.
    pub fn next_position_id(&mut self) -> (r: PositionId)
        requires
            old(self).wf(),
            old(self).spec_next_position_id() < u64::MAX,
        ensures
            final(self).wf(),
            r.0 == old(self).spec_next_position_id(),
            final(self).spec_next_position_id() == old(self).spec_next_position_id() + 1,
            final(self).spec_next_leg_id() == old(self).spec_next_leg_id(),
            final(self).spec_events() == old(self).spec_events(),
    {
        let id = PositionId(self.next_position_id);
        self.next_position_id = self.next_position_id + 1;
        id
    }

    /// Hands out a new leg id; ids are never handed out twice.
    pub fn next_leg_id(&mut self) -> (r: LegId)
        requires
            old(self).wf(),
            old(self).spec_next_leg_id() < u64::MAX,
        ensures
            final(self).wf(),
            r.0 == old(self).spec_next_leg_id(),
            final(self).spec_next_leg_id() == old(self).spec_next_leg_id() + 1,
            final(self).spec_next_position_id() == old(self).spec_next_position_id(),
            final(self).spec_events() == old(self).spec_events(),
    {
        let id = LegId(self.next_leg_id);
        self.next_leg_id = self.next_leg_id + 1;
        id
    }
}

} // verus!
