//! Strategy settings as the engine reads them: times of day, strike
//! selection, roll rules and their leg scopes, each parsed once from its
//! text form into a tagged value.
use vstd::prelude::*;
use crate::calendar::TimeOfDay;
use crate::events::{OptionType, Side};
use crate::text::{find_char_from, find_from, parse_u16_range, spec_parse_u16, str_eq};
use crate::triggers::{LegScope, TriggerKind};

verus! {

/// Market hours of a product, each as `HH:MM`.
#[derive(Debug, Clone)]
pub struct TradingHoursConfig {
    /// Market open time.
    pub open: String,
    /// Market close time.
    pub close: String,
    /// Option expiration time.
    pub option_expiry: String,
}

/// How the strikes of a new position are chosen.
#[derive(Debug, Clone, Copy, PartialEq, Eq, Structural)]
pub enum StrikeSelection {
    /// Both legs at the money.
    Atm,
    /// Put and call the configured offset away from the money.
    Otm,
    /// One leg at the strike whose delta is closest to `target_percent`
    /// hundredths; the other leg at the money.
    Delta { option_type: OptionType, target_percent: u16 },
}

/// What happens to the strikes when a position is rolled.
#[derive(Debug, Clone, Copy, PartialEq, Eq, Structural)]
pub enum RollType {
    /// New strikes around the current price.
    Recenter,
    /// The strikes of the closed position.
    SameStrikes,
}

/// The minutes from midnight that `HH:MM` text gives: hours default to 14
/// and minutes to 0 where they do not parse.
pub open spec fn spec_parse_time(s: Seq<char>) -> int {
    let c0 = find_from(s, ':', 0);
    let c1 = find_from(s, ':', c0 + 1);
    let hours = match spec_parse_u16(s.subrange(0, c0)) {
        Some(h) => h as int,
        None => 14,
    };
    let minutes = match spec_parse_u16(s.subrange(c0 + 1, c1)) {
        Some(m) => m as int,
        None => 0,
    };
    hours * 60 + minutes
}

/// Parses `HH:MM` into minutes from midnight. Hours that do not parse count
/// as 14, minutes that do not parse as 0; text after a second `:` is ignored.
pub fn parse_time(time_str: &str) -> (r: TimeOfDay)
    requires
        find_from(time_str@, ':', 0) < time_str@.len(),
        spec_parse_time(time_str@) <= u16::MAX,
    ensures
        r == spec_parse_time(time_str@),
{
    let _len: usize = time_str.unicode_len();
    let c0: usize = find_char_from(time_str, ':', 0);
    let c1: usize = find_char_from(time_str, ':', c0 + 1);
    let hours: u16 = match parse_u16_range(time_str, 0, c0) {
        Some(h) => h,
        None => 14,
    };
    let minutes: u16 = match parse_u16_range(time_str, c0 + 1, c1) {
        Some(m) => m,
        None => 0,
    };
    hours * 60 + minutes
}

/// Parses `HH:MM` like `parse_time`, or gives nothing when the text has no
/// `:` or the minutes from midnight do not fit a `TimeOfDay`.
pub fn try_parse_time(time_str: &str) -> (r: Option<TimeOfDay>)
    ensures
        r == if find_from(time_str@, ':', 0) < time_str@.len() && spec_parse_time(time_str@)
            <= u16::MAX {
            Some(spec_parse_time(time_str@) as u16)
        } else {
            None::<u16>
        },
{
    let len: usize = time_str.unicode_len();
    let c0: usize = find_char_from(time_str, ':', 0);
    if c0 >= len {
        return None;
    }
    let c1: usize = find_char_from(time_str, ':', c0 + 1);
    let hours: u16 = match parse_u16_range(time_str, 0, c0) {
        Some(h) => h,
        None => 14,
    };
    let minutes: u16 = match parse_u16_range(time_str, c0 + 1, c1) {
        Some(m) => m,
        None => 0,
    };
    let total: u32 = hours as u32 * 60 + minutes as u32;
    if total > 65535 {
        None
    } else {
        Some(total as u16)
    }
}

/// Default entry time.
pub fn default_entry_time() -> (r: String)
    ensures
        r@ == seq!['1', '5', ':', '0', '0'],
{
    proof {
        reveal_strlit("15:00");
        assert("15:00"@ =~= seq!['1', '5', ':', '0', '0']);
    }
    String::from_str("15:00")
}

/// Default roll time.
pub fn default_roll_time() -> (r: String)
    ensures
        r@ == seq!['1', '4', ':', '0', '0'],
{
    proof {
        reveal_strlit("14:00");
        assert("14:00"@ =~= seq!['1', '4', ':', '0', '0']);
    }
    String::from_str("14:00")
}

/// Default strike selection.
pub fn default_strike_selection() -> (r: String)
    ensures
        r@ == seq!['A', 'T', 'M'],
{
    proof {
        reveal_strlit("ATM");
        assert("ATM"@ =~= seq!['A', 'T', 'M']);
    }
    String::from_str("ATM")
}

/// Default leg scope of a roll rule.
pub fn default_legs() -> (r: String)
    ensures
        r@ == seq!['b', 'o', 't', 'h'],
{
    proof {
        reveal_strlit("both");
        assert("both"@ =~= seq!['b', 'o', 't', 'h']);
    }
    String::from_str("both")
}

/// Default roll type.
pub fn default_roll_type() -> (r: String)
    ensures
        r@ == seq!['r', 'e', 'c', 'e', 'n', 't', 'e', 'r'],
{
    proof {
        reveal_strlit("recenter");
        assert("recenter"@ =~= seq!['r', 'e', 'c', 'e', 'n', 't', 'e', 'r']);
    }
    String::from_str("recenter")
}

/// The leg scope that `legs` names: `put`, `call`, or both for anything else.
pub open spec fn spec_parse_legs(legs: Seq<char>) -> LegScope {
    if legs == seq!['p', 'u', 't'] {
        LegScope::Put
    } else if legs == seq!['c', 'a', 'l', 'l'] {
        LegScope::Call
    } else {
        LegScope::Both
    }
}

/// Parses the leg scope of a roll rule.
pub fn parse_legs(legs: &str) -> (r: LegScope)
    ensures
        r == spec_parse_legs(legs@),
{
    proof {
        reveal_strlit("put");
        assert("put"@ =~= seq!['p', 'u', 't']);
        reveal_strlit("call");
        assert("call"@ =~= seq!['c', 'a', 'l', 'l']);
    }
    if str_eq(legs, "put") {
        LegScope::Put
    } else if str_eq(legs, "call") {
        LegScope::Call
    } else {
        LegScope::Both
    }
}

/// The side that `side` names: `long`, or short for anything else.
pub open spec fn spec_parse_side(side: Seq<char>) -> Side {
    if side == seq!['l', 'o', 'n', 'g'] {
        Side::Long
    } else {
        Side::Short
    }
}

/// Parses the side of a strategy.
pub fn parse_side(side: &str) -> (r: Side)
    ensures
        r == spec_parse_side(side@),
{
    proof {
        reveal_strlit("long");
        assert("long"@ =~= seq!['l', 'o', 'n', 'g']);
    }
    if str_eq(side, "long") {
        Side::Long
    } else {
        Side::Short
    }
}

/// The roll type that `roll_type` names: `same_strikes`, or recenter for
/// anything else.
pub open spec fn spec_parse_roll_type(roll_type: Seq<char>) -> RollType {
    if roll_type == seq!['s', 'a', 'm', 'e', '_', 's', 't', 'r', 'i', 'k', 'e', 's'] {
        RollType::SameStrikes
    } else {
        RollType::Recenter
    }
}

/// Parses the roll type.
pub fn parse_roll_type(roll_type: &str) -> (r: RollType)
    ensures
        r == spec_parse_roll_type(roll_type@),
{
    proof {
        reveal_strlit("same_strikes");
        assert("same_strikes"@ =~= seq!['s', 'a', 'm', 'e', '_', 's', 't', 'r', 'i', 'k', 'e', 's']);
    }
    if str_eq(roll_type, "same_strikes") {
        RollType::SameStrikes
    } else {
        RollType::Recenter
    }
}

/// The rule condition that `trigger_type` names; `max_dte` is the threshold
/// of a `dte` rule.
pub open spec fn spec_parse_trigger_kind(trigger_type: Seq<char>, max_dte: i64) -> TriggerKind {
    if trigger_type == seq!['t', 'i', 'm', 'e'] {
        TriggerKind::Time
    } else if trigger_type == seq!['d', 't', 'e'] {
        TriggerKind::Dte { max_dte }
    } else if trigger_type == seq!['p', 'r', 'o', 'f', 'i', 't', '_', 't', 'a', 'r', 'g', 'e', 't'] {
        TriggerKind::ProfitTarget
    } else if trigger_type == seq!['p', 'r', 'i', 'c', 'e', '_', 'm', 'o', 'v', 'e'] {
        TriggerKind::PriceMove
    } else {
        TriggerKind::Unrecognized
    }
}

/// Parses the type of a roll rule: `time`, `dte` (with threshold `max_dte`),
/// `profit_target` or `price_move`; any other type never holds.
pub fn parse_trigger_kind(trigger_type: &str, max_dte: i64) -> (r: TriggerKind)
    ensures
        r == spec_parse_trigger_kind(trigger_type@, max_dte),
{
    proof {
        reveal_strlit("time");
        assert("time"@ =~= seq!['t', 'i', 'm', 'e']);
        reveal_strlit("dte");
        assert("dte"@ =~= seq!['d', 't', 'e']);
        reveal_strlit("profit_target");
        assert("profit_target"@ =~= seq!['p', 'r', 'o', 'f', 'i', 't', '_', 't', 'a', 'r', 'g', 'e', 't']);
        reveal_strlit("price_move");
        assert("price_move"@ =~= seq!['p', 'r', 'i', 'c', 'e', '_', 'm', 'o', 'v', 'e']);
    }
    if str_eq(trigger_type, "time") {
        TriggerKind::Time
    } else if str_eq(trigger_type, "dte") {
        TriggerKind::Dte { max_dte }
    } else if str_eq(trigger_type, "profit_target") {
        TriggerKind::ProfitTarget
    } else if str_eq(trigger_type, "price_move") {
        TriggerKind::PriceMove
    } else {
        TriggerKind::Unrecognized
    }
}

/// The strike selection that `selection` names: `OTM`;
/// `delta_<put|call>_<N>` (further `_` parts ignored, `N` defaulting to 30
/// where it does not parse); at the money for anything else.
pub open spec fn spec_parse_strike_selection(s: Seq<char>) -> StrikeSelection {
    let sep1 = find_from(s, '_', 0);
    let sep2 = find_from(s, '_', sep1 + 1);
    let sep3 = find_from(s, '_', sep2 + 1);
    if s == seq!['O', 'T', 'M'] {
        StrikeSelection::Otm
    } else if s.len() >= 6 && s.subrange(0, 6) == seq!['d', 'e', 'l', 't', 'a', '_'] && sep2 < s.len() {
        let kind = s.subrange(sep1 + 1, sep2);
        let target = match spec_parse_u16(s.subrange(sep2 + 1, sep3)) {
            Some(n) => n,
            None => 30,
        };
        if kind == seq!['c', 'a', 'l', 'l'] {
            StrikeSelection::Delta { option_type: OptionType::Call, target_percent: target }
        } else if kind == seq!['p', 'u', 't'] {
            StrikeSelection::Delta { option_type: OptionType::Put, target_percent: target }
        } else {
            StrikeSelection::Atm
        }
    } else {
        StrikeSelection::Atm
    }
}

/// Parses a strike selection.
pub fn parse_strike_selection(selection: &str) -> (r: StrikeSelection)
    ensures
        r == spec_parse_strike_selection(selection@),
{
    proof {
        reveal_strlit("OTM");
        assert("OTM"@ =~= seq!['O', 'T', 'M']);
        reveal_strlit("delta_");
        assert("delta_"@ =~= seq!['d', 'e', 'l', 't', 'a', '_']);
        reveal_strlit("call");
        assert("call"@ =~= seq!['c', 'a', 'l', 'l']);
        reveal_strlit("put");
        assert("put"@ =~= seq!['p', 'u', 't']);
    }
    if str_eq(selection, "OTM") {
        return StrikeSelection::Otm;
    }
    let n: usize = selection.unicode_len();
    if n < 6 || !str_eq(selection.substring_char(0, 6), "delta_") {
        return StrikeSelection::Atm;
    }
    let sep1: usize = find_char_from(selection, '_', 0);
    if sep1 >= n {
        return StrikeSelection::Atm;
    }
    let sep2: usize = find_char_from(selection, '_', sep1 + 1);
    if sep2 >= n {
        return StrikeSelection::Atm;
    }
    let sep3: usize = find_char_from(selection, '_', sep2 + 1);
    let target: u16 = match parse_u16_range(selection, sep2 + 1, sep3) {
        Some(t) => t,
        None => 30,
    };
    let kind = selection.substring_char(sep1 + 1, sep2);
    if str_eq(kind, "call") {
        StrikeSelection::Delta { option_type: OptionType::Call, target_percent: target }
    } else if str_eq(kind, "put") {
        StrikeSelection::Delta { option_type: OptionType::Put, target_percent: target }
    } else {
        StrikeSelection::Atm
    }
}

} // verus!
