use trading_simulator::calendar::Calendar;
use trading_simulator::config::parse_time;
use trading_simulator::triggers::{
    evaluate_triggers, LegScope, PositionState, RollDecision, RollReason, TriggerKind, TriggerRule,
};

fn position(expiration_day: u32) -> PositionState<f64> {
    PositionState {
        position_id: 1,
        entry_day: 0,
        expiration_day,
        entry_price: 75.0,
        current_price: 77.0,
        put_strike: 75.0,
        call_strike: 75.0,
        put_entry_premium: 1.0,
        call_entry_premium: 1.0,
        last_rolled_put: None,
        last_rolled_call: None,
    }
}

fn rule(kind: TriggerKind, legs: LegScope) -> TriggerRule {
    TriggerRule { kind, legs }
}

#[test]
fn test_time_trigger() {
    // Test that 14:00 trigger fires correctly
    let trigger_time = parse_time("14:00");
    assert_eq!(trigger_time, 14 * 60);
}

#[test]
fn test_profit_target_calculation() {
    // Entry premium: $1.00, current value: $0.50
    // Unrealized P&L: $0.50 = 50% of max profit
    let entry_value = 1.0;
    let current_value = 0.5;
    let unrealized_pnl = entry_value - current_value;
    let max_profit = entry_value;
    let profit_percent = (unrealized_pnl / max_profit) * 100.0;
    assert_eq!(profit_percent, 50.0);
}

#[test]
fn first_configured_rule_wins() {
    let cal = Calendar::new();
    let pos = position(7);
    // Both a price move and a DTE rule hold; the order decides.
    let rules = vec![
        rule(TriggerKind::PriceMove, LegScope::Call),
        rule(TriggerKind::Dte { max_dte: 10 }, LegScope::Put),
    ];
    let readings = vec![Some(2.0), None];
    match evaluate_triggers(&pos, &rules, &readings, &cal, 0, 600, 840) {
        RollDecision::RollCall { reason: RollReason::PriceMove { points_moved } } => {
            assert_eq!(points_moved, 2.0)
        }
        other => panic!("unexpected decision {:?}", other),
    }
    let swapped = vec![rules[1], rules[0]];
    let swapped_readings = vec![None, Some(2.0)];
    match evaluate_triggers(&pos, &swapped, &swapped_readings, &cal, 0, 600, 840) {
        RollDecision::RollPut { reason: RollReason::DteThreshold { remaining_dte } } => {
            assert_eq!(remaining_dte, 6)
        }
        other => panic!("unexpected decision {:?}", other),
    }
}

#[test]
fn hold_when_nothing_fires() {
    let cal = Calendar::new();
    let pos = position(7);
    let rules = vec![
        rule(TriggerKind::Dte { max_dte: 2 }, LegScope::Both),
        rule(TriggerKind::ProfitTarget, LegScope::Both),
        rule(TriggerKind::Time, LegScope::Both),
        rule(TriggerKind::Unrecognized, LegScope::Both),
    ];
    let readings = vec![None, None, None, None];
    assert!(matches!(
        evaluate_triggers(&pos, &rules, &readings, &cal, 0, 900, 840),
        RollDecision::Hold
    ));
}

#[test]
fn expiration_fallback_rolls_both() {
    let cal = Calendar::new();
    let pos = position(3);
    let rules: Vec<TriggerRule> = vec![];
    let readings: Vec<Option<f64>> = vec![];
    assert!(matches!(
        evaluate_triggers(&pos, &rules, &readings, &cal, 3, 840, 840),
        RollDecision::RollBoth { reason: RollReason::TimeTrigger }
    ));
    assert!(matches!(
        evaluate_triggers(&pos, &rules, &readings, &cal, 3, 839, 840),
        RollDecision::Hold
    ));
}

#[test]
fn time_rule_follows_its_leg_scope() {
    let cal = Calendar::new();
    let pos = position(3);
    let rules = vec![rule(TriggerKind::Time, LegScope::Put)];
    let readings = vec![None];
    assert!(matches!(
        evaluate_triggers(&pos, &rules, &readings, &cal, 3, 900, 840),
        RollDecision::RollPut { reason: RollReason::TimeTrigger }
    ));
    let both = vec![rule(TriggerKind::Time, LegScope::Both)];
    assert!(matches!(
        evaluate_triggers(&pos, &both, &readings, &cal, 3, 900, 840),
        RollDecision::RollBoth { reason: RollReason::TimeTrigger }
    ));
    let call = vec![rule(TriggerKind::Time, LegScope::Call)];
    assert!(matches!(
        evaluate_triggers(&pos, &call, &readings, &cal, 3, 839, 840),
        RollDecision::Hold
    ));
}

#[test]
fn profit_target_reading_scopes_to_put() {
    let cal = Calendar::new();
    let pos = position(7);
    let rules = vec![rule(TriggerKind::ProfitTarget, LegScope::Put)];
    let readings = vec![Some(55.0)];
    match evaluate_triggers(&pos, &rules, &readings, &cal, 1, 900, 840) {
        RollDecision::RollPut { reason: RollReason::ProfitTarget { profit_percent } } => {
            assert_eq!(profit_percent, 55.0)
        }
        other => panic!("unexpected decision {:?}", other),
    }
}

#[test]
fn negative_dte_threshold_never_fires() {
    let cal = Calendar::new();
    let pos = position(3);
    let rules = vec![rule(TriggerKind::Dte { max_dte: -1 }, LegScope::Both)];
    let readings = vec![None];
    assert!(matches!(
        evaluate_triggers(&pos, &rules, &readings, &cal, 3, 600, 840),
        RollDecision::Hold
    ));
}
