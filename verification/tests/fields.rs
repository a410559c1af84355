use prettycron::field::classify;
use prettycron::field::is_every_other;
use prettycron::field::is_on_the_hour;
use prettycron::field::is_one_based;
use prettycron::field::is_step_value;
use prettycron::field::is_twice_per_hour;
use prettycron::field::is_well_formed;
use prettycron::field::step_size;
use prettycron::fragments::get_minutes_text_parts;
use prettycron::fragments::get_seconds_text_parts;
use prettycron::CronFields;
use prettycron::ResolvedField;
use prettycron::StepPattern;

fn pair(prefix: &str, suffix: &str) -> (String, String) {
    (prefix.to_string(), suffix.to_string())
}

fn evens() -> Vec<u32> {
    (0..60).step_by(2).collect()
}

#[test]
fn step_size_of_at_most_one_value() {
    assert_eq!(step_size(&[]), 0);
    assert_eq!(step_size(&[7]), 0);
}

#[test]
fn step_size_of_two_values() {
    assert_eq!(step_size(&[0, 30]), 30);
    assert_eq!(step_size(&[5, 35]), 30);
    assert_eq!(step_size(&[10, 11]), 1);
    assert_eq!(step_size(&[0, 4294967295]), 4294967295);
}

#[test]
fn step_size_of_more_values_is_zero() {
    assert_eq!(step_size(&[0, 20, 40]), 0);
    assert_eq!(step_size(&evens()), 0);
    assert_eq!(step_size(&[1, 2, 4]), 0);
}

#[test]
fn every_other_needs_thirty_values_and_step_two() {
    assert!(is_every_other(2, &evens()));
    assert!(!is_every_other(3, &evens()));
    assert!(!is_every_other(0, &evens()));
    assert!(!is_every_other(2, &[0, 2]));
}

#[test]
fn twice_per_hour_needs_two_values_and_step_thirty() {
    assert!(is_twice_per_hour(30, &[0, 30]));
    assert!(!is_twice_per_hour(29, &[0, 29]));
    assert!(!is_twice_per_hour(30, &[0, 30, 31]));
    assert!(!is_twice_per_hour(30, &[0]));
}

#[test]
fn on_the_hour_is_the_single_value_zero() {
    assert!(is_on_the_hour(&[0]));
    assert!(!is_on_the_hour(&[1]));
    assert!(!is_on_the_hour(&[0, 1]));
    assert!(!is_on_the_hour(&[]));
}

#[test]
fn step_value_needs_more_than_two_values_and_a_step() {
    assert!(is_step_value(5, &[0, 5, 10]));
    assert!(!is_step_value(0, &[0, 5, 10]));
    assert!(!is_step_value(5, &[0, 5]));
}

#[test]
fn classify_tells_the_patterns_apart() {
    assert_eq!(classify(&[0], true), StepPattern::Wildcard);
    assert_eq!(classify(&evens(), true), StepPattern::Wildcard);
    assert_eq!(classify(&[0], false), StepPattern::SingleZero);
    assert_eq!(classify(&[5], false), StepPattern::ExplicitList);
    assert_eq!(classify(&[0, 30], false), StepPattern::TwicePerUnit);
    assert_eq!(classify(&[15, 45], false), StepPattern::TwicePerUnit);
    assert_eq!(classify(&[15, 44], false), StepPattern::ExplicitList);
    assert_eq!(classify(&[0, 20, 40], false), StepPattern::ExplicitList);
    assert_eq!(classify(&evens(), false), StepPattern::ExplicitList);
}

#[test]
fn seconds_parts() {
    assert_eq!(get_seconds_text_parts(&[0, 1, 2], true), pair("second", ""));
    assert_eq!(
        get_seconds_text_parts(&[0, 30], false),
        pair("minute", "starting on the first and 30th second")
    );
    assert_eq!(
        get_seconds_text_parts(&[5], false),
        pair("minute", "starting on the 5th second")
    );
    assert_eq!(
        get_seconds_text_parts(&[0], false),
        pair("minute", "starting on the 0th second")
    );
    assert_eq!(
        get_seconds_text_parts(&[0, 20, 40], false),
        pair("minute", "starting on the 0, 20 and 40th second")
    );
}

#[test]
fn minutes_parts() {
    assert_eq!(get_minutes_text_parts(&[0, 1, 2], true), pair("minute", ""));
    assert_eq!(get_minutes_text_parts(&[0], false), pair("", "hour, on the hour"));
    assert_eq!(get_minutes_text_parts(&[0, 30], false), pair("", "first and 30th minute"));
    assert_eq!(get_minutes_text_parts(&[15], false), pair("", "15th minute"));
    assert_eq!(get_minutes_text_parts(&[1, 31, 32], false), pair("", "1, 31 and 32nd minute"));
    let every_other = get_minutes_text_parts(&evens(), false);
    assert_eq!(every_other.0, "");
    assert!(every_other.1.ends_with("56 and 58th minute"));
}

#[test]
fn well_formed_values() {
    assert!(is_well_formed(&[0]));
    assert!(is_well_formed(&[1, 2, 3]));
    assert!(is_well_formed(&[0, 4294967295]));
    assert!(!is_well_formed(&[]));
    assert!(!is_well_formed(&[1, 1]));
    assert!(!is_well_formed(&[2, 1]));
    assert!(!is_well_formed(&[1, 2, 3, 3]));
    assert!(!is_well_formed(&[1, 5, 4, 6]));
}

#[test]
fn one_based_values() {
    assert!(is_one_based(&[]));
    assert!(is_one_based(&[1, 2]));
    assert!(!is_one_based(&[0, 1]));
    assert!(!is_one_based(&[3, 0]));
}

#[test]
fn a_field_needs_well_formed_values() {
    let field = ResolvedField::new(vec![1, 2, 3], false).unwrap();
    assert_eq!(field.values, vec![1, 2, 3]);
    assert!(!field.is_wildcard);
    assert!(ResolvedField::new(vec![4], true).unwrap().is_wildcard);
    assert!(ResolvedField::new(vec![], true).is_none());
    assert!(ResolvedField::new(vec![3, 2], false).is_none());
    assert!(ResolvedField::new(vec![2, 2], false).is_none());
}

#[test]
fn fields_fit_to_be_described() {
    let field = |values: Vec<u32>| ResolvedField { values, is_wildcard: false };
    let good = CronFields {
        seconds: field(vec![0]),
        minutes: field(vec![0]),
        hours: field(vec![0]),
        days_of_month: field(vec![1]),
        months: field(vec![1]),
        days_of_week: field(vec![1]),
    };
    assert!(good.is_valid());
    let mut empty_hours = good.clone();
    empty_hours.hours = field(vec![]);
    assert!(!empty_hours.is_valid());
    let mut unordered = good.clone();
    unordered.seconds = field(vec![5, 4]);
    assert!(!unordered.is_valid());
    let mut month_zero = good.clone();
    month_zero.months = field(vec![0, 1]);
    assert!(!month_zero.is_valid());
    let mut weekday_zero = good.clone();
    weekday_zero.days_of_week = field(vec![0]);
    assert!(!weekday_zero.is_valid());
    let mut day_zero = good;
    day_zero.days_of_month = field(vec![0]);
    assert!(day_zero.is_valid());
}
