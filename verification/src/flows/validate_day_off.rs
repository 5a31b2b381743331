use vstd::prelude::*;

use crate::clock::{as_int, current_week_time, WeekTime};
use crate::errors::TradingExecutorError;
use crate::reference_data::{DayOffWindow, TradingInstrument};

verus! {

/// Whether `c` is a decimal digit.
pub open spec fn is_digit(c: char) -> bool {
    '0' <= c && c <= '9'
}

/// The value of the decimal digit `c`.
pub open spec fn digit_val(c: char) -> int {
    c as u32 - 48
}

/// The hour named by an `HH:MM:SS` text.
pub open spec fn text_hour(s: Seq<char>) -> int {
    10 * digit_val(s[0]) + digit_val(s[1])
}

/// The minute named by an `HH:MM:SS` text.
pub open spec fn text_minute(s: Seq<char>) -> int {
    10 * digit_val(s[3]) + digit_val(s[4])
}

/// The second named by an `HH:MM:SS` text.
pub open spec fn text_second(s: Seq<char>) -> int {
    10 * digit_val(s[6]) + digit_val(s[7])
}

/// Whether `s` is a well-formed `HH:MM:SS` time-of-day text.
pub open spec fn valid_time_text(s: Seq<char>) -> bool {
    &&& s.len() == 8
    &&& is_digit(s[0]) && is_digit(s[1]) && is_digit(s[3]) && is_digit(s[4]) && is_digit(s[6])
        && is_digit(s[7])
    &&& s[2] == ':' && s[5] == ':'
    &&& text_hour(s) < 24
    &&& text_minute(s) < 60
    &&& text_second(s) < 60
}

/// The second-of-day named by a well-formed `HH:MM:SS` text.
pub open spec fn time_text_seconds(s: Seq<char>) -> int {
    3600 * text_hour(s) + 60 * text_minute(s) + text_second(s)
}

/// Parse an `HH:MM:SS` time-of-day text into its hour, minute and second.
pub fn parse_hms(s: &String) -> (r: Option<(u32, u32, u32)>)
    ensures
        match r {
            Some(t) => valid_time_text(s@) && t.0 == text_hour(s@) && t.1 == text_minute(s@)
                && t.2 == text_second(s@),
            None => !valid_time_text(s@),
        },
{
    let text = s.as_str();
    if text.unicode_len() != 8 {
        return None;
    }
    let c0 = text.get_char(0) as u32;
    let c1 = text.get_char(1) as u32;
    let c2 = text.get_char(2) as u32;
    let c3 = text.get_char(3) as u32;
    let c4 = text.get_char(4) as u32;
    let c5 = text.get_char(5) as u32;
    let c6 = text.get_char(6) as u32;
    let c7 = text.get_char(7) as u32;
    if c2 != 58 || c5 != 58 {
        return None;
    }
    if c0 < 48 || c0 > 57 || c1 < 48 || c1 > 57 || c3 < 48 || c3 > 57 || c4 < 48 || c4 > 57
        || c6 < 48 || c6 > 57 || c7 < 48 || c7 > 57 {
        return None;
    }
    let hour = 10 * (c0 - 48) + (c1 - 48);
    let minute = 10 * (c3 - 48) + (c4 - 48);
    let second = 10 * (c6 - 48) + (c7 - 48);
    if hour >= 24 || minute >= 60 || second >= 60 {
        return None;
    }
    Some((hour, minute, second))
}

/// The venue stores day-of-week codes with 0 for Sunday and 1..=7 for
/// Monday..Sunday; this converts a code to days counted from Monday.
pub open spec fn dow_code_to_days_from_monday(code: int) -> int {
    if code == 0 {
        6
    } else {
        code - 1
    }
}

/// Convert a venue day code to days counted from Monday.
pub fn convert_csharp_int_day_to_rust_weekday(src: i32) -> (r: u32)
    requires
        0 <= src <= 7,
    ensures
        r == dow_code_to_days_from_monday(src as int),
        r <= 6,
{
    if src == 0 {
        6
    } else {
        (src - 1) as u32
    }
}

impl DayOffWindow {
    /// A window is well formed when its day codes are venue day codes and its
    /// boundary times are `HH:MM:SS` texts.
    pub open spec fn wf(self) -> bool {
        &&& 0 <= self.dow_from <= 7
        &&& 0 <= self.dow_to <= 7
        &&& valid_time_text(self.time_from@)
        &&& valid_time_text(self.time_to@)
    }

    /// The second-of-week index at which this window begins.
    pub open spec fn from_index(self) -> int {
        dow_code_to_days_from_monday(self.dow_from as int) * 86400 + time_text_seconds(
            self.time_from@,
        )
    }

    /// The second-of-week index at which this window ends.
    pub open spec fn to_index(self) -> int {
        dow_code_to_days_from_monday(self.dow_to as int) * 86400 + time_text_seconds(self.time_to@)
    }
}

/// Whether the second-of-week index `now` falls inside the window bounded by
/// `from` and `to`, both ends inclusive. A window with `from < to` lies within
/// one wrap of the week; one with `from >= to` wraps past the week boundary.
pub open spec fn week_index_in_window(from: int, to: int, now: int) -> bool {
    if from < to {
        from <= now && now <= to
    } else {
        now >= from || now <= to
    }
}

/// Whether `now` falls inside the blackout window `w`.
pub open spec fn window_day_off(w: DayOffWindow, now: WeekTime) -> bool {
    week_index_in_window(w.from_index(), w.to_index(), now.week_second())
}

/// Whether `now` falls inside any blackout window of `instrument`.
pub open spec fn instrument_day_off(instrument: TradingInstrument, now: WeekTime) -> bool {
    exists|i: int|
        0 <= i < instrument.days_off@.len() && window_day_off(
            #[trigger] instrument.days_off@[i],
            now,
        )
}

/// Whether every blackout window of `instrument` is well formed.
pub open spec fn instrument_windows_wf(instrument: TradingInstrument) -> bool {
    forall|i: int|
        0 <= i < instrument.days_off@.len() ==> (#[trigger] instrument.days_off@[i]).wf()
}

/// Decide whether `current_date` falls inside the blackout window, both
/// boundaries inclusive.
pub fn validate_day_off(window: &DayOffWindow, current_date: &WeekTime) -> (r: Result<
    (),
    TradingExecutorError,
>)
    requires
        window.wf(),
        current_date.wf(),
    ensures
        r is Err <==> window_day_off(*window, *current_date),
        r is Err ==> r == Err::<(), TradingExecutorError>(TradingExecutorError::DayOff),
{
    let from_time = parse_hms(&window.time_from).unwrap();
    let to_time = parse_hms(&window.time_to).unwrap();

    let from_as_int: u32 = convert_csharp_int_day_to_rust_weekday(window.dow_from) * 86400
        + from_time.0 * 3600 + from_time.1 * 60 + from_time.2;
    let to_as_int: u32 = convert_csharp_int_day_to_rust_weekday(window.dow_to) * 86400
        + to_time.0 * 3600 + to_time.1 * 60 + to_time.2;
    let current_as_int = as_int(current_date);

    let is_first_case = from_as_int < to_as_int;

    let is_day_off = match is_first_case {
        true => from_as_int <= current_as_int && current_as_int <= to_as_int,
        false => {
            let first_case = current_as_int >= from_as_int;
            let second_case = current_as_int <= to_as_int;
            first_case || second_case
        },
    };

    if is_day_off {
        return Err(TradingExecutorError::DayOff);
    }

    Ok(())
}

/// Decide whether `now` falls inside any blackout window of the instrument.
pub fn validate_instrument_day_off_at(instrument: &TradingInstrument, now: &WeekTime) -> (r: Result<
    (),
    TradingExecutorError,
>)
    requires
        instrument_windows_wf(*instrument),
        now.wf(),
    ensures
        r is Err <==> instrument_day_off(*instrument, *now),
        r is Err ==> r == Err::<(), TradingExecutorError>(TradingExecutorError::DayOff),
{
    let n = instrument.days_off.len();
    let mut idx: usize = 0;
    while idx < n
        invariant
            idx <= n,
            n == instrument.days_off@.len(),
            instrument_windows_wf(*instrument),
            now.wf(),
            forall|j: int| 0 <= j < idx ==> !window_day_off(#[trigger] instrument.days_off@[j], *now),
        decreases n - idx,
    {
        let r = validate_day_off(&instrument.days_off[idx], now);
        if r.is_err() {
            return Err(TradingExecutorError::DayOff);
        }
        idx += 1;
    }
    Ok(())
}

/// Decide whether the current instant falls inside any blackout window of the
/// instrument. The instant is read from the clock; the result is exactly the
/// window check at the instant that was read.
pub fn validate_instrument_day_off(instrument: &TradingInstrument) -> (r: Result<
    (),
    TradingExecutorError,
>)
    requires
        instrument_windows_wf(*instrument),
    ensures
        r is Err ==> r == Err::<(), TradingExecutorError>(TradingExecutorError::DayOff),
        exists|w: WeekTime| w.wf() && (r is Err <==> instrument_day_off(*instrument, w)),
        instrument.days_off@.len() == 0 ==> r is Ok,
{
    let now = current_week_time();
    let r = validate_instrument_day_off_at(instrument, &now);
    proof {
        assert(now.wf() && (r is Err <==> instrument_day_off(*instrument, now)));
    }
    r
}

/// For every window that does not wrap the week (`from < to`): the window is
/// exactly the closed interval of second-of-week indexes from `from` to `to`;
/// in particular both boundary instants are day-off.
pub proof fn lemma_bounded_window(from: int, to: int, now: int)
    requires
        from < to,
    ensures
        week_index_in_window(from, to, from),
        week_index_in_window(from, to, to),
        week_index_in_window(from, to, now) <==> from <= now <= to,
{
}

/// For every wrapping window (`from >= to`): every index strictly between
/// `to` and `from` is tradable, and both boundary instants are day-off.
pub proof fn lemma_wrapping_window(from: int, to: int, now: int)
    requires
        from >= to,
    ensures
        week_index_in_window(from, to, from),
        week_index_in_window(from, to, to),
        to < now < from ==> !week_index_in_window(from, to, now),
        week_index_in_window(from, to, now) <==> !(to < now < from),
{
}

} // verus!
