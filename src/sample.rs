use vstd::prelude::*;

verus! {

#[verifier::external_type_specification]
#[verifier::external_body]
pub struct ExNaiveDateTime(chrono::NaiveDateTime);

/// Format of the date line: `2024-05-06`.
pub const DATE_FORMAT: &'static str = "%Y-%m-%d";

/// Format of the time line and of the event's value: `07:08:09`.
pub const TIME_FORMAT: &'static str = "%H:%M:%S";

/// The text that chrono writes for `t` in the strftime format `fmt`.
pub uninterp spec fn strftime_text(t: chrono::NaiveDateTime, fmt: Seq<char>) -> Seq<char>;

/// Relies on chrono::NaiveDateTime::format and its `Display`: writes `t` in
/// the strftime format `fmt`. Only the formats of this library, which chrono
/// accepts, are handed to it: with a format it rejects, `to_string` panics.
#[verifier::external_body]
fn format_date_time(t: &chrono::NaiveDateTime, fmt: &str) -> (r: String)
    requires
        fmt@ == DATE_FORMAT@ || fmt@ == TIME_FORMAT@,
    ensures
        r@ == strftime_text(*t, fmt@),
{
    t.format(fmt).to_string()
}

/// The clock's value at one moment: its date line and its time line.
pub struct ClockSample {
    pub date: String,
    pub time: String,
}

impl ClockSample {
    /// The sample of the local date and time `now`.
    pub fn of(now: &chrono::NaiveDateTime) -> (r: ClockSample)
        ensures
            r.date@ == strftime_text(*now, DATE_FORMAT@),
            r.time@ == strftime_text(*now, TIME_FORMAT@),
    {
        ClockSample {
            date: format_date_time(now, DATE_FORMAT),
            time: format_date_time(now, TIME_FORMAT),
        }
    }
}

} // verus!
