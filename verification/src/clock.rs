//! The clock boundary: what only the system can answer — the local hour and
//! weekday right now — comes from chrono, as plain values.

use vstd::prelude::*;
use crate::day::Day;

verus! {

/// Relies on `chrono::Local::now` with `Timelike::hour` and
/// `Datelike::weekday`: the local wall-clock hour — documented to lie in
/// 0..=23 — and the local weekday. The result depends on the clock, so
/// nothing relates one call to the next.
#[verifier::external_body]
pub fn local_hour_and_day() -> (r: (u32, Day))
    ensures
        r.0 < 24,
{
    let now = chrono::Local::now();
    let hour = chrono::Timelike::hour(&now);
    let day = match chrono::Datelike::weekday(&now) {
        chrono::Weekday::Mon => Day::Monday,
        chrono::Weekday::Tue => Day::Tuesday,
        chrono::Weekday::Wed => Day::Wednesday,
        chrono::Weekday::Thu => Day::Thursday,
        chrono::Weekday::Fri => Day::Friday,
        chrono::Weekday::Sat => Day::Saturday,
        chrono::Weekday::Sun => Day::Sunday,
    };
    (hour, day)
}

} // verus!
