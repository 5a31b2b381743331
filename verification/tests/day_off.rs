use chrono::{Datelike, TimeZone, Timelike, Utc};

use trading_executor::clock::{as_int, WeekTime};
use trading_executor::errors::TradingExecutorError;
use trading_executor::flows::validate_day_off::{
    convert_csharp_int_day_to_rust_weekday, parse_hms, validate_day_off,
    validate_instrument_day_off, validate_instrument_day_off_at,
};
use trading_executor::reference_data::{DayOffWindow, TradingInstrument};

fn week_time(year: i32, month: u32, day: u32, hour: u32, minute: u32, second: u32) -> WeekTime {
    let date = Utc.with_ymd_and_hms(year, month, day, hour, minute, second).unwrap();
    WeekTime {
        days_from_monday: date.weekday().num_days_from_monday(),
        hour: date.time().hour(),
        minute: date.time().minute(),
        second: date.time().second(),
    }
}

fn window(dow_from: i32, time_from: &str, dow_to: i32, time_to: &str) -> DayOffWindow {
    DayOffWindow {
        dow_from,
        time_from: time_from.to_string(),
        dow_to,
        time_to: time_to.to_string(),
    }
}

#[test]
fn check_day_off_f_s_t_day_off() {
    let day_off = window(1, "21:00:00", 2, "14:30:00");
    let date = week_time(2023, 11, 20, 22, 0, 0);

    let validate_result = validate_day_off(&day_off, &date);

    assert_eq!(true, validate_result.is_err());
}

#[test]
fn check_day_off_f_s_t_day_on() {
    let day_off = window(1, "21:00:00", 2, "14:30:00");
    let date = week_time(2023, 11, 20, 20, 0, 0);

    let validate_result = validate_day_off(&day_off, &date);

    assert_eq!(false, validate_result.is_err());
}

#[test]
fn check_day_off_f_b_t_day_off() {
    let day_off = window(5, "21:00:00", 2, "14:30:00");
    let date = week_time(2023, 11, 20, 22, 0, 0);

    let validate_result = validate_day_off(&day_off, &date);

    assert_eq!(true, validate_result.is_err());
}

#[test]
fn check_day_off_f_b_t_day_off_2() {
    let day_off = window(5, "21:00:00", 2, "14:30:00");
    let date = week_time(2023, 11, 22, 14, 29, 0);

    let validate_result = validate_day_off(&day_off, &date);

    assert_eq!(false, validate_result.is_err());
}

#[test]
fn check_day_off_f_b_t_day_on() {
    let day_off = window(5, "21:00:00", 2, "14:30:00");
    let date = week_time(2023, 11, 22, 14, 31, 0);

    let validate_result = validate_day_off(&day_off, &date);

    assert_eq!(false, validate_result.is_err());
}

#[test]
fn bounded_window_boundaries_are_day_off() {
    // Tuesday 21:00:00 through Wednesday 14:30:00, inclusive at both ends.
    let day_off = window(2, "21:00:00", 3, "14:30:00");
    let at_from = week_time(2023, 11, 21, 21, 0, 0);
    let at_to = week_time(2023, 11, 22, 14, 30, 0);
    let just_before = week_time(2023, 11, 21, 20, 59, 59);
    let just_after = week_time(2023, 11, 22, 14, 30, 1);

    assert!(validate_day_off(&day_off, &at_from).is_err());
    assert!(validate_day_off(&day_off, &at_to).is_err());
    assert!(validate_day_off(&day_off, &just_before).is_ok());
    assert!(validate_day_off(&day_off, &just_after).is_ok());
}

#[test]
fn wrapping_window_boundaries_are_day_off() {
    // Saturday 21:00:00 wrapping to Wednesday 14:30:00.
    let day_off = window(6, "21:00:00", 3, "14:30:00");
    let at_from = week_time(2023, 11, 25, 21, 0, 0);
    let at_to = week_time(2023, 11, 22, 14, 30, 0);
    let inside_wrap = week_time(2023, 11, 26, 12, 0, 0);
    let strictly_between = week_time(2023, 11, 23, 12, 0, 0);

    assert!(validate_day_off(&day_off, &at_from).is_err());
    assert!(validate_day_off(&day_off, &at_to).is_err());
    assert!(validate_day_off(&day_off, &inside_wrap).is_err());
    assert!(validate_day_off(&day_off, &strictly_between).is_ok());
}

#[test]
fn day_off_error_kind_is_day_off() {
    let day_off = window(1, "21:00:00", 2, "14:30:00");
    let date = week_time(2023, 11, 20, 22, 0, 0);

    assert_eq!(validate_day_off(&day_off, &date), Err(TradingExecutorError::DayOff));
}

#[test]
fn instrument_day_off_checks_every_window() {
    let instrument = TradingInstrument {
        id: "EURUSD".to_string(),
        base: "EUR".to_string(),
        quote: "USD".to_string(),
        // Saturday 21:00 through Sunday 21:00, and Tuesday 10:00 through 12:00.
        days_off: vec![window(6, "21:00:00", 0, "21:00:00"), window(2, "10:00:00", 2, "12:00:00")],
        day_timeout: None,
        night_timeout: None,
    };
    let tuesday_morning = week_time(2023, 11, 21, 11, 0, 0);
    let wednesday = week_time(2023, 11, 22, 11, 0, 0);
    let sunday = week_time(2023, 11, 26, 11, 0, 0);

    assert_eq!(
        validate_instrument_day_off_at(&instrument, &tuesday_morning),
        Err(TradingExecutorError::DayOff)
    );
    assert_eq!(
        validate_instrument_day_off_at(&instrument, &sunday),
        Err(TradingExecutorError::DayOff)
    );
    assert!(validate_instrument_day_off_at(&instrument, &wednesday).is_ok());
}

#[test]
fn no_windows_means_tradable() {
    let instrument = TradingInstrument {
        id: "EURUSD".to_string(),
        base: "EUR".to_string(),
        quote: "USD".to_string(),
        days_off: vec![],
        day_timeout: None,
        night_timeout: None,
    };
    let any_time = week_time(2023, 11, 20, 12, 0, 0);

    assert!(validate_instrument_day_off_at(&instrument, &any_time).is_ok());
}

#[test]
fn parse_hms_reads_valid_times() {
    assert_eq!(parse_hms(&"21:00:00".to_string()), Some((21, 0, 0)));
    assert_eq!(parse_hms(&"14:30:00".to_string()), Some((14, 30, 0)));
    assert_eq!(parse_hms(&"00:00:00".to_string()), Some((0, 0, 0)));
    assert_eq!(parse_hms(&"23:59:59".to_string()), Some((23, 59, 59)));
}

#[test]
fn parse_hms_rejects_malformed_times() {
    assert_eq!(parse_hms(&"24:00:00".to_string()), None);
    assert_eq!(parse_hms(&"12:60:00".to_string()), None);
    assert_eq!(parse_hms(&"12:00:60".to_string()), None);
    assert_eq!(parse_hms(&"12:00".to_string()), None);
    assert_eq!(parse_hms(&"ab:cd:ef".to_string()), None);
    assert_eq!(parse_hms(&"12-00-00".to_string()), None);
    assert_eq!(parse_hms(&"".to_string()), None);
}

#[test]
fn venue_day_codes_map_to_days_from_monday() {
    assert_eq!(convert_csharp_int_day_to_rust_weekday(0), 6);
    assert_eq!(convert_csharp_int_day_to_rust_weekday(1), 0);
    assert_eq!(convert_csharp_int_day_to_rust_weekday(2), 1);
    assert_eq!(convert_csharp_int_day_to_rust_weekday(6), 5);
    assert_eq!(convert_csharp_int_day_to_rust_weekday(7), 6);
}

#[test]
fn week_second_index_matches_formula() {
    let monday_evening = week_time(2023, 11, 20, 21, 0, 0);
    assert_eq!(as_int(&monday_evening), 21 * 3600);
    let tuesday_afternoon = week_time(2023, 11, 21, 14, 30, 0);
    assert_eq!(as_int(&tuesday_afternoon), 86400 + 14 * 3600 + 30 * 60);
}

#[test]
fn clock_checked_day_off_is_ok_without_windows() {
    let instrument = TradingInstrument {
        id: "EURUSD".to_string(),
        base: "EUR".to_string(),
        quote: "USD".to_string(),
        days_off: vec![],
        day_timeout: None,
        night_timeout: None,
    };
    assert!(validate_instrument_day_off(&instrument).is_ok());
}

#[test]
fn clock_checked_day_off_rejects_a_whole_week_window() {
    let instrument = TradingInstrument {
        id: "EURUSD".to_string(),
        base: "EUR".to_string(),
        quote: "USD".to_string(),
        days_off: vec![window(1, "00:00:00", 0, "23:59:59")],
        day_timeout: None,
        night_timeout: None,
    };
    assert_eq!(validate_instrument_day_off(&instrument), Err(TradingExecutorError::DayOff));
}
