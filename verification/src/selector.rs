//! The character-selection rule: each day of the week has a fixed character,
//! and with a small probability the wildcard character is chosen instead.

use vstd::prelude::*;
use crate::day::Day;
use rand::Rng;

verus! {

/// Numerator of the default wildcard-override probability (1 in 20, i.e. 5%).
pub const OVERRIDE_NUMERATOR: u32 = 1;

/// Denominator of the default wildcard-override probability.
pub const OVERRIDE_DENOMINATOR: u32 = 20;

/// The identifier of the character fixed for `day`.
pub open spec fn day_character(day: Day) -> Seq<char> {
    match day {
        Day::Monday => "misato"@,
        Day::Tuesday => "rei"@,
        Day::Wednesday => "gendo"@,
        Day::Thursday => "asuka"@,
        Day::Friday => "kaji"@,
        Day::Saturday => "kaworu"@,
        Day::Sunday => "shinji"@,
    }
}

/// The identifier of the wildcard character, chosen with the override
/// probability on any day.
pub open spec fn wildcard_character() -> Seq<char> {
    "penpen"@
}

/// Relies on `rand::Rng::gen_ratio` on the thread-local generator: returns
/// `true` with probability `numerator / denominator`; its documentation
/// guarantees the result is `false` whenever the numerator is zero and `true`
/// whenever the numerator equals the denominator, and that the call panics
/// exactly when the denominator is zero or the numerator exceeds it.
#[verifier::external_body]
fn draw_override(numerator: u32, denominator: u32) -> (wildcard: bool)
    requires
        0 < denominator,
        numerator <= denominator,
    ensures
        numerator == 0 ==> !wildcard,
        numerator == denominator ==> wildcard,
{
    rand::thread_rng().gen_ratio(numerator, denominator)
}

/// The fixed day-to-character mapping, with no override.
pub fn character_for_day(day: Day) -> (r: String)
    ensures
        r@ == day_character(day),
{
    match day {
        Day::Monday => "misato".to_string(),
        Day::Tuesday => "rei".to_string(),
        Day::Wednesday => "gendo".to_string(),
        Day::Thursday => "asuka".to_string(),
        Day::Friday => "kaji".to_string(),
        Day::Saturday => "kaworu".to_string(),
        Day::Sunday => "shinji".to_string(),
    }
}

/// The deterministic core of the selection rule: the wildcard character when
/// the override draw came up true, otherwise the day's fixed character.
pub fn select_with_draw(day: Day, wildcard: bool) -> (r: String)
    ensures
        r@ == if wildcard {
            wildcard_character()
        } else {
            day_character(day)
        },
{
    if wildcard {
        "penpen".to_string()
    } else {
        character_for_day(day)
    }
}

/// Selects the character to post for `day`: with probability
/// `numerator / denominator` the wildcard character, otherwise the day's
/// fixed character.
pub fn select_character_with_probability(day: Day, numerator: u32, denominator: u32) -> (r: String)
    requires
        0 < denominator,
        numerator <= denominator,
    ensures
        r@ == day_character(day) || r@ == wildcard_character(),
        numerator == 0 ==> r@ == day_character(day),
        numerator == denominator ==> r@ == wildcard_character(),
{
    let wildcard = draw_override(numerator, denominator);
    select_with_draw(day, wildcard)
}

/// Selects the character to post for `day` with the default override
/// probability.
pub fn select_character(day: Day) -> (r: String)
    ensures
        r@ == day_character(day) || r@ == wildcard_character(),
{
    select_character_with_probability(day, OVERRIDE_NUMERATOR, OVERRIDE_DENOMINATOR)
}

} // verus!
