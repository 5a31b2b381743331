use vstd::prelude::*;

verus! {

/// A point in time reduced to its position within a week (UTC): the day of
/// the week counted from Monday, and the time of day. This is all the day-off
/// validator reads of "now".
#[derive(Clone, Copy, Debug, PartialEq, Eq, Structural)]
pub struct WeekTime {
    pub days_from_monday: u32,
    pub hour: u32,
    pub minute: u32,
    pub second: u32,
}

impl WeekTime {
    pub open spec fn wf(self) -> bool {
        self.days_from_monday < 7 && self.hour < 24 && self.minute < 60 && self.second < 60
    }

    /// The linear second-of-week index of this time, in `[0, 604800)`.
    pub open spec fn week_second(self) -> int {
        self.days_from_monday * 86400 + self.hour * 3600 + self.minute * 60 + self.second
    }
}

/// The linear second-of-week index of `w`.
pub fn as_int(w: &WeekTime) -> (r: u32)
    requires
        w.wf(),
    ensures
        r == w.week_second(),
        r < 604800,
{
    w.days_from_monday * 86400 + w.hour * 3600 + w.minute * 60 + w.second
}

/// Relies on chrono: `Utc::now` for the current instant, `Datelike::weekday`
/// with `Weekday::num_days_from_monday` for the day of the week (always in
/// 0..=6), and `Timelike::hour`/`minute`/`second` for the time of day (always
/// in range; chrono never reports a leap second as 60 through these).
#[verifier::external_body]
pub(crate) fn current_week_time() -> (r: WeekTime)
    ensures
        r.wf(),
{
    let now = chrono::Utc::now();
    let time = now.time();
    WeekTime {
        days_from_monday: chrono::Datelike::weekday(&now).num_days_from_monday(),
        hour: chrono::Timelike::hour(&time),
        minute: chrono::Timelike::minute(&time),
        second: chrono::Timelike::second(&time),
    }
}

/// Relies on chrono: `Utc::now().timestamp_millis()`, the current unix time
/// in milliseconds. Nothing more is assumed of the clock's reading.
#[verifier::external_body]
pub(crate) fn current_unix_millis() -> (r: i64)
{
    chrono::Utc::now().timestamp_millis()
}

} // verus!
