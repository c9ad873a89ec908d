use trading_simulator::calendar::Calendar;
use trading_simulator::events::{CashFlow, CloseReason, Event, EventStore, OptionType, Side};
use trading_simulator::simulation::{
    cash_flow, close_position, close_valuation, open_position, plan_bar, roll_position, BarAction,
    CloseValuation,
};
use trading_simulator::triggers::{RollDecision, RollReason};

#[test]
fn open_then_close_records_both_events() {
    let cal = Calendar::new();
    let mut store: EventStore<f64> = EventStore::new();
    let pos = open_position(&mut store, &cal, 4, 900, 1, Side::Short, 75.0, 75.0, 75.0, 0.6, 0.5);
    assert_eq!(pos.position_id.0, 1);
    assert_eq!(pos.put_leg.0, 1);
    assert_eq!(pos.call_leg.0, 2);
    assert_eq!(pos.expiration_day, 6);
    match &store.all_events()[0] {
        Event::PositionOpened { position_id, timestamp, legs } => {
            assert_eq!(*position_id, pos.position_id);
            assert_eq!(*timestamp, (4, 900));
            assert_eq!(legs.len(), 2);
            assert_eq!(legs[0].1.option_type, OptionType::Put);
            assert_eq!(legs[1].1.option_type, OptionType::Call);
            assert_eq!(legs[1].1.expiration_day, 6);
            assert!(matches!(legs[0].2, CashFlow::Received(p) if p == 0.6));
        }
        _ => panic!("expected an opening"),
    }
    close_position(&mut store, &pos, 6, 840, 0.0, 1.2, CloseReason::Expiration);
    match &store.all_events()[1] {
        Event::PositionClosed { position_id, timestamp, close_premiums, reason } => {
            assert_eq!(*position_id, pos.position_id);
            assert_eq!(*timestamp, (6, 840));
            assert_eq!(close_premiums, &vec![(pos.put_leg, 0.0), (pos.call_leg, 1.2)]);
            assert!(matches!(reason, CloseReason::Expiration));
        }
        _ => panic!("expected a closing"),
    }
    let next = open_position(&mut store, &cal, 6, 840, 1, Side::Long, 76.0, 76.0, 76.0, 0.4, 0.4);
    assert_eq!(next.position_id.0, 2);
    assert_eq!(next.put_leg.0, 3);
    assert_eq!(store.events_for_position(pos.position_id).len(), 2);
}

#[test]
fn long_side_pays_premium() {
    assert!(matches!(cash_flow(Side::Long, 1.5), CashFlow::Paid(p) if p == 1.5));
    assert!(matches!(cash_flow(Side::Short, 1.5), CashFlow::Received(p) if p == 1.5));
}

#[test]
fn bar_actions() {
    let cal = Calendar::new();
    let hold: RollDecision<f64> = RollDecision::Hold;
    let roll: RollDecision<f64> = RollDecision::RollPut { reason: RollReason::TimeTrigger };
    assert_eq!(plan_bar::<f64>(&cal, 5, None), BarAction::Skip);
    assert_eq!(plan_bar(&cal, 5, Some(&roll)), BarAction::Skip);
    assert_eq!(plan_bar::<f64>(&cal, 2, None), BarAction::Open);
    assert_eq!(plan_bar(&cal, 2, Some(&hold)), BarAction::Hold);
    assert_eq!(plan_bar(&cal, 2, Some(&roll)), BarAction::Roll);
}

#[test]
fn close_valuation_by_remaining_days() {
    let cal = Calendar::new();
    assert_eq!(close_valuation(&cal, 3, 7), CloseValuation::Mark);
    assert_eq!(close_valuation(&cal, 7, 7), CloseValuation::Intrinsic);
    assert_eq!(close_valuation(&cal, 5, 7), CloseValuation::Mark);
    assert_eq!(close_valuation(&cal, 5, 6), CloseValuation::Intrinsic);
}

#[test]
fn roll_closes_then_reopens() {
    let cal = Calendar::new();
    let mut store: EventStore<f64> = EventStore::new();
    let pos = open_position(&mut store, &cal, 0, 900, 1, Side::Long, 75.0, 75.0, 75.0, 0.6, 0.5);
    let next = roll_position(
        &mut store, &cal, &pos, 1, 840, 0.2, 0.9, CloseReason::Expiration, 1, 76.0, 76.0, 76.0, 0.7,
        0.6,
    );
    assert_eq!(next.position_id.0, 2);
    assert_eq!(next.put_leg.0, 3);
    assert_eq!(next.call_leg.0, 4);
    assert_eq!(next.expiration_day, 2);
    assert_eq!(next.side, Side::Long);
    assert_eq!(store.all_events().len(), 3);
    assert!(matches!(store.all_events()[1], Event::PositionClosed { position_id, .. } if position_id == pos.position_id));
    match &store.all_events()[2] {
        Event::PositionOpened { position_id, timestamp, legs } => {
            assert_eq!(*position_id, next.position_id);
            assert_eq!(*timestamp, (1, 840));
            assert!(matches!(legs[1].2, CashFlow::Paid(p) if p == 0.6));
        }
        _ => panic!("expected an opening"),
    }
    assert_eq!(store.open_positions(), vec![next.position_id]);
}
