use trading_simulator::intraday::{Timestamp, TradingCalendar};

#[test]
fn test_trading_hours_weekday() {
    let cal = TradingCalendar::new();

    // Monday 10:00 - should be trading
    let mon_10 = Timestamp::new(0, 10 * 60);
    assert!(cal.is_trading_time(&mon_10));

    // Monday 17:30 - maintenance window, NOT trading
    let mon_1730 = Timestamp::new(0, 17 * 60 + 30);
    assert!(!cal.is_trading_time(&mon_1730));

    // Friday 16:00 - should be trading
    let fri_16 = Timestamp::new(4, 16 * 60);
    assert!(cal.is_trading_time(&fri_16));

    // Friday 18:00 - weekend, NOT trading
    let fri_18 = Timestamp::new(4, 18 * 60);
    assert!(!cal.is_trading_time(&fri_18));

    // Sunday 19:00 - should be trading
    let sun_19 = Timestamp::new(6, 19 * 60);
    assert!(cal.is_trading_time(&sun_19));
}

#[test]
fn test_generate_trading_times() {
    let cal = TradingCalendar::new();

    // Generate 10 bars at 10-min intervals starting Monday 9:00
    let times = cal.generate_trading_times(0, 9 * 60, 10, 10);

    assert_eq!(times.len(), 10);
    // First bar should be 9:00
    assert_eq!(times[0].minute, 9 * 60);

    // 9:00 + 9 * 10min = 10:30, well before 17:00
    assert_eq!(times[9].minute, 10 * 60 + 30);
}

#[test]
fn test_fractional_days() {
    let cal = TradingCalendar::new();
    let t1 = Timestamp::new(0, 10 * 60);
    let t2 = Timestamp::new(1, 10 * 60);

    let days = cal.fractional_days_between(&t1, &t2) as f64 / 1440.0;
    assert!((days - 1.0).abs() < 0.001);
}

#[test]
fn test_calculate_dte() {
    let cal = TradingCalendar::new();

    // From Monday 10:00 to Friday 14:30 (expiration)
    let current = Timestamp::new(0, 10 * 60);
    let dte = cal.calculate_dte(&current, 4) as f64 / 1440.0;

    // Should be approximately 4 trading days
    assert!(dte > 3.5 && dte < 4.5);
}

#[test]
fn calculate_dte_on_expiration_day_counts_minutes() {
    let cal = TradingCalendar::new();
    assert_eq!(cal.calculate_dte(&Timestamp::new(4, 14 * 60), 4), 30);
    assert_eq!(cal.calculate_dte(&Timestamp::new(4, 14 * 60 + 30), 4), 0);
    assert_eq!(cal.calculate_dte(&Timestamp::new(5, 0), 4), 0);
    // Monday to next Monday: six session days (Saturday excluded).
    assert_eq!(cal.calculate_dte(&Timestamp::new(0, 0), 7), 6 * 1440);
}

#[test]
fn trading_times_by_weekday() {
    let cal = TradingCalendar::new();
    assert!(cal.is_trading_time(&Timestamp::new(4, 16 * 60)));
    assert!(!cal.is_trading_time(&Timestamp::new(4, 18 * 60)));
    for minute in [0, 600, 1019, 1020, 1080, 1439] {
        assert!(!cal.is_trading_time(&Timestamp::new(5, minute)));
    }
    assert!(cal.is_trading_time(&Timestamp::new(6, 19 * 60)));
    assert!(!cal.is_trading_time(&Timestamp::new(6, 17 * 60 + 30)));
}

#[test]
fn every_day_but_saturday_is_a_session_day() {
    let cal = TradingCalendar::new();
    for d in 0..50u32 {
        assert_eq!(cal.is_trading_day(d), d % 7 != 5);
    }
}

#[test]
fn generated_times_avoid_closed_periods() {
    let cal = TradingCalendar::new();
    // Start Thursday 16:00 and run through the weekend.
    let times = cal.generate_trading_times(3, 16 * 60, 400, 10);
    assert_eq!(times.len(), 400);
    for t in &times {
        let weekday = t.day % 7;
        assert_ne!(weekday, 5);
        assert!(!(t.minute >= 17 * 60 && t.minute < 18 * 60));
        if weekday == 4 {
            assert!(t.minute < 17 * 60);
        }
    }
    // The maintenance window is skipped: Thursday 16:50 is followed by 18:00.
    assert_eq!(times[5], Timestamp::new(3, 16 * 60 + 50));
    assert_eq!(times[6], Timestamp::new(3, 18 * 60));
}

#[test]
fn next_trading_time_crosses_the_weekend() {
    let cal = TradingCalendar::new();
    let next = cal.next_trading_time(&Timestamp::new(4, 16 * 60 + 50), 10);
    assert_eq!(next, Timestamp::new(6, 18 * 60));
}

#[test]
fn generation_starts_at_first_open_bar() {
    let cal = TradingCalendar::new();
    let times = cal.generate_trading_times(5, 600, 2, 60);
    assert_eq!(times[0], Timestamp::new(6, 18 * 60));
    assert_eq!(times[1], Timestamp::new(6, 19 * 60));
}

#[test]
fn session_bar_times_fill_whole_sessions() {
    let cal = TradingCalendar::new();
    let times = cal.session_bar_times(2, 10, 0, 0);
    assert_eq!(times.len(), 2 * 138);
    assert_eq!(times[0], Timestamp::new(0, 0));
}

#[test]
fn timestamps_total_and_format() {
    let t = Timestamp::new(8, 9 * 60 + 5);
    assert_eq!(t.total_minutes(), 8 * 1440 + 545);
    assert_eq!(t.format_time(), "09:05");
    assert_eq!(t.format(), "Day 8 (Tue W1) 09:05");
    assert_eq!(Timestamp::new(13, 23 * 60 + 59).format(), "Day 13 (Sun W1) 23:59");
}

#[test]
fn minutes_between_is_signed() {
    let cal = TradingCalendar::new();
    let a = Timestamp::new(2, 100);
    let b = Timestamp::new(1, 40);
    assert_eq!(cal.fractional_days_between(&a, &b), -1500);
    assert_eq!(cal.fractional_days_between(&b, &a), 1500);
}

#[test]
fn intraday_next_trading_day_skips_saturday() {
    let cal = TradingCalendar::new();
    assert_eq!(cal.next_trading_day(4), 6);
    assert_eq!(cal.next_trading_day(0), 1);
    assert_eq!(cal.trading_days_between(0, 7), 6);
}
