//! What the seconds and the minutes field each contribute to a sentence: a
//! pair of texts, the first for the place right after `Every`, the second
//! for what follows it.

use crate::field::classify;
use crate::field::pattern_of;
use crate::field::step_of;
use crate::field::step_size;
use crate::field::well_formed;
use crate::field::StepPattern;
use crate::lists::number_list;
use crate::lists::number_list_text;
use crate::text::decimal;
use crate::text::decimal_digits;
use vstd::prelude::*;

verus! {

/// The two texts of the seconds field.
pub open spec fn seconds_parts(values: Seq<u32>, wildcard: bool) -> (Seq<char>, Seq<char>) {
    match pattern_of(values, wildcard) {
        StepPattern::Wildcard => ("second"@, Seq::empty()),
        StepPattern::EveryOther => (Seq::empty(), "other second"@),
        StepPattern::Stepped => (Seq::empty(), decimal_digits(step_of(values) as nat) + " seconds"@),
        StepPattern::TwicePerUnit => ("minute"@, "starting on the "@ + "first and 30th second"@),
        _ => ("minute"@, "starting on the "@ + number_list_text(values) + " second"@),
    }
}

/// The two texts of the minutes field.
pub open spec fn minutes_parts(values: Seq<u32>, wildcard: bool) -> (Seq<char>, Seq<char>) {
    match pattern_of(values, wildcard) {
        StepPattern::Wildcard => ("minute"@, Seq::empty()),
        StepPattern::SingleZero => (Seq::empty(), "hour, on the hour"@),
        StepPattern::EveryOther => ("other minute"@, Seq::empty()),
        StepPattern::Stepped => (Seq::empty(), decimal_digits(step_of(values) as nat) + " minutes"@),
        StepPattern::TwicePerUnit => (Seq::empty(), "first and 30th minute"@),
        StepPattern::ExplicitList => (Seq::empty(), number_list_text(values) + " minute"@),
    }
}

/// Builds the two texts of the seconds field.
pub fn get_seconds_text_parts(numbers: &[u32], star: bool) -> (parts: (String, String))
    requires
        well_formed(numbers@),
    ensures
        parts.0@ == seconds_parts(numbers@, star).0,
        parts.1@ == seconds_parts(numbers@, star).1,
{
    match classify(numbers, star) {
        StepPattern::Wildcard => (String::from_str("second"), String::new()),
        StepPattern::EveryOther => (String::new(), String::from_str("other second")),
        StepPattern::Stepped => {
            let mut suffix: String = decimal(step_size(numbers) as u64);
            suffix.append(" seconds");
            (String::new(), suffix)
        },
        StepPattern::TwicePerUnit => {
            let mut suffix: String = String::from_str("starting on the ");
            suffix.append("first and 30th second");
            (String::from_str("minute"), suffix)
        },
        _ => {
            let mut suffix: String = String::from_str("starting on the ");
            suffix.append(number_list(numbers).as_str());
            suffix.append(" second");
            (String::from_str("minute"), suffix)
        },
    }
}

/// Builds the two texts of the minutes field.
pub fn get_minutes_text_parts(minutes: &[u32], star: bool) -> (parts: (String, String))
    requires
        well_formed(minutes@),
    ensures
        parts.0@ == minutes_parts(minutes@, star).0,
        parts.1@ == minutes_parts(minutes@, star).1,
{
    match classify(minutes, star) {
        StepPattern::Wildcard => (String::from_str("minute"), String::new()),
        StepPattern::SingleZero => (String::new(), String::from_str("hour, on the hour")),
        StepPattern::EveryOther => (String::from_str("other minute"), String::new()),
        StepPattern::Stepped => {
            let mut suffix: String = decimal(step_size(minutes) as u64);
            suffix.append(" minutes");
            (String::new(), suffix)
        },
        StepPattern::TwicePerUnit => (String::new(), String::from_str("first and 30th minute")),
        StepPattern::ExplicitList => {
            let mut suffix: String = number_list(minutes);
            suffix.append(" minute");
            (String::new(), suffix)
        },
    }
}

} // verus!
