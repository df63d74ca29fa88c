use daily_cast::day::Day;
use daily_cast::selector::{
    character_for_day, select_character, select_character_with_probability, select_with_draw,
    OVERRIDE_DENOMINATOR, OVERRIDE_NUMERATOR,
};

const ALL_DAYS: [Day; 7] = [
    Day::Monday,
    Day::Tuesday,
    Day::Wednesday,
    Day::Thursday,
    Day::Friday,
    Day::Saturday,
    Day::Sunday,
];

fn expected_character(day: Day) -> &'static str {
    match day {
        Day::Monday => "misato",
        Day::Tuesday => "rei",
        Day::Wednesday => "gendo",
        Day::Thursday => "asuka",
        Day::Friday => "kaji",
        Day::Saturday => "kaworu",
        Day::Sunday => "shinji",
    }
}

#[test]
fn fixed_mapping_with_zero_override() {
    for day in ALL_DAYS {
        assert_eq!(
            select_character_with_probability(day, 0, OVERRIDE_DENOMINATOR),
            expected_character(day)
        );
    }
}

#[test]
fn fixed_mapping_direct() {
    for day in ALL_DAYS {
        assert_eq!(character_for_day(day), expected_character(day));
        assert_eq!(select_with_draw(day, false), expected_character(day));
    }
}

#[test]
fn wildcard_with_certain_override() {
    for day in ALL_DAYS {
        assert_eq!(
            select_character_with_probability(day, OVERRIDE_DENOMINATOR, OVERRIDE_DENOMINATOR),
            "penpen"
        );
        assert_eq!(select_with_draw(day, true), "penpen");
    }
}

#[test]
fn default_selection_is_day_character_or_wildcard() {
    for _ in 0..200 {
        let picked = select_character(Day::Wednesday);
        assert!(picked == "gendo" || picked == "penpen");
    }
}

#[test]
fn override_rate_converges_to_one_quarter() {
    let trials = 10_000;
    let mut wildcards = 0;
    for _ in 0..trials {
        if select_character_with_probability(Day::Monday, 1, 4) == "penpen" {
            wildcards += 1;
        }
    }
    // Mean 2500, standard deviation about 43: a window of plus or minus 500
    // is more than ten standard deviations wide.
    assert!(2000 <= wildcards && wildcards <= 3000, "rate off: {wildcards}");
}

#[test]
fn override_rate_converges_at_default_probability() {
    let trials = 10_000;
    let mut wildcards = 0;
    for _ in 0..trials {
        if select_character_with_probability(Day::Friday, OVERRIDE_NUMERATOR, OVERRIDE_DENOMINATOR)
            == "penpen"
        {
            wildcards += 1;
        }
    }
    // Mean 500, standard deviation about 22: a window of plus or minus 300
    // is more than ten standard deviations wide.
    assert!(200 <= wildcards && wildcards <= 800, "rate off: {wildcards}");
}
