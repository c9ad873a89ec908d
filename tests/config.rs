use trading_simulator::config::{
    default_entry_time, default_legs, default_roll_time, default_roll_type,
    default_strike_selection, parse_legs, parse_roll_type, parse_side, parse_strike_selection,
    parse_time, parse_trigger_kind, try_parse_time, RollType, StrikeSelection,
};
use trading_simulator::events::{OptionType, Side};
use trading_simulator::triggers::{LegScope, TriggerKind};

#[test]
fn parse_time_reads_hours_and_minutes() {
    assert_eq!(parse_time("15:00"), 900);
    assert_eq!(parse_time("09:05"), 545);
    assert_eq!(parse_time("+7:30"), 450);
    assert_eq!(parse_time("23:59:10"), 1439);
}

#[test]
fn parse_time_defaults_where_parts_do_not_parse() {
    assert_eq!(parse_time("xx:30"), 14 * 60 + 30);
    assert_eq!(parse_time("10:"), 600);
    assert_eq!(parse_time(":"), 840);
    assert_eq!(parse_time("10:-5"), 600);
}

#[test]
fn defaults_are_the_reference_strategy() {
    assert_eq!(default_entry_time(), "15:00");
    assert_eq!(default_roll_time(), "14:00");
    assert_eq!(default_strike_selection(), "ATM");
    assert_eq!(default_legs(), "both");
    assert_eq!(default_roll_type(), "recenter");
}

#[test]
fn strike_selection_variants() {
    assert_eq!(parse_strike_selection("ATM"), StrikeSelection::Atm);
    assert_eq!(parse_strike_selection("OTM"), StrikeSelection::Otm);
    assert_eq!(
        parse_strike_selection("delta_put_30"),
        StrikeSelection::Delta { option_type: OptionType::Put, target_percent: 30 }
    );
    assert_eq!(
        parse_strike_selection("delta_call_16"),
        StrikeSelection::Delta { option_type: OptionType::Call, target_percent: 16 }
    );
    assert_eq!(
        parse_strike_selection("delta_call_x"),
        StrikeSelection::Delta { option_type: OptionType::Call, target_percent: 30 }
    );
    assert_eq!(parse_strike_selection("delta_put"), StrikeSelection::Atm);
    assert_eq!(parse_strike_selection("delta_both_10"), StrikeSelection::Atm);
    assert_eq!(parse_strike_selection("whatever"), StrikeSelection::Atm);
}

#[test]
fn scopes_sides_and_roll_types() {
    assert_eq!(parse_legs("put"), LegScope::Put);
    assert_eq!(parse_legs("call"), LegScope::Call);
    assert_eq!(parse_legs("both"), LegScope::Both);
    assert_eq!(parse_side("long"), Side::Long);
    assert_eq!(parse_side("short"), Side::Short);
    assert_eq!(parse_roll_type("same_strikes"), RollType::SameStrikes);
    assert_eq!(parse_roll_type("recenter"), RollType::Recenter);
}

#[test]
fn trigger_kinds() {
    assert_eq!(parse_trigger_kind("time", 0), TriggerKind::Time);
    assert_eq!(parse_trigger_kind("dte", 28), TriggerKind::Dte { max_dte: 28 });
    assert_eq!(parse_trigger_kind("profit_target", 0), TriggerKind::ProfitTarget);
    assert_eq!(parse_trigger_kind("price_move", 0), TriggerKind::PriceMove);
    assert_eq!(parse_trigger_kind("stop_loss", 0), TriggerKind::Unrecognized);
}

#[test]
fn try_parse_time_refuses_what_does_not_fit() {
    assert_eq!(try_parse_time("0014:00"), Some(840));
    assert_eq!(try_parse_time("1400"), None);
    assert_eq!(try_parse_time("1092:15"), Some(65535));
    assert_eq!(try_parse_time("1092:16"), None);
    assert_eq!(try_parse_time("xx:30"), Some(870));
}
