//! The sentence of a schedule, assembled from its six fields.
//!
//! The sentence is a row of words joined by single spaces: the time of day
//! (a head, a beginning and an end), then the days of the month, the days of
//! the week and the months, each only where the field restricts the
//! schedule.

use crate::field::on_the_hour;
use crate::field::CronFields;
use crate::field::CronFieldsSpec;
use crate::field::is_on_the_hour;
use crate::fragments::get_minutes_text_parts;
use crate::fragments::get_seconds_text_parts;
use crate::fragments::minutes_parts;
use crate::fragments::seconds_parts;
use crate::laws::lemma_sentence_tidy;
use crate::lists::date_list;
use crate::lists::date_list_text;
use crate::lists::number_list;
use crate::lists::number_list_text;
use crate::lists::DateNaming;
use crate::text::join_words;
use crate::text::join_words_text;
use crate::text::lemma_texts_push;
use crate::text::texts;
use crate::tidy::tidy;
use vstd::prelude::*;

verus! {

/// The seconds are worth a clause of their own: written out, and either
/// between 2 and 59 values or one value other than 0.
pub open spec fn specific_seconds(f: CronFieldsSpec) -> bool {
    let n = f.seconds.values.len();
    !f.seconds.is_wildcard && (1 < n < 60 || (n == 1 && f.seconds.values[0] != 0))
}

/// Hours, minutes and seconds are all written out with at most two values
/// each. Such a schedule gets no time of day in its sentence.
pub open spec fn clock_like(f: CronFieldsSpec) -> bool {
    f.hours.sparse() && f.minutes.sparse() && f.seconds.sparse()
}

/// The day of the month restricts the schedule: written out, and not all
/// 31 days.
pub open spec fn days_of_month_restricted(f: CronFieldsSpec) -> bool {
    !f.days_of_month.is_wildcard && f.days_of_month.values.len() != 31
}

/// Day of the month, day of the week or month restricts the schedule.
pub open spec fn date_restricted(f: CronFieldsSpec) -> bool {
    days_of_month_restricted(f) || !f.days_of_week.is_wildcard || !f.months.is_wildcard
}

/// Hours and minutes are written out, the minutes are exactly `0`, and the
/// seconds have no clause: the sentence opens with `On the`.
pub open spec fn on_the_hour_only(f: CronFieldsSpec) -> bool {
    &&& !f.hours.is_wildcard
    &&& !f.minutes.is_wildcard
    &&& !specific_seconds(f)
    &&& on_the_hour(f.minutes.values)
}

/// The first words of the time of day.
pub open spec fn head_text(f: CronFieldsSpec) -> Seq<char> {
    if on_the_hour_only(f) {
        "On the"@
    } else {
        "Every"@
    }
}

/// What the seconds give to the beginning and to the end, before hours and
/// minutes are looked at.
pub open spec fn seeded(f: CronFieldsSpec) -> (Seq<char>, Seq<char>) {
    if specific_seconds(f) {
        seconds_parts(f.seconds.values, f.seconds.is_wildcard)
    } else {
        (Seq::empty(), Seq::empty())
    }
}

/// The word or words right after the head.
pub open spec fn beginning_text(f: CronFieldsSpec) -> Seq<char> {
    let minutes = minutes_parts(f.minutes.values, f.minutes.is_wildcard);
    if !f.hours.is_wildcard {
        if !f.minutes.is_wildcard && !on_the_hour_only(f) {
            minutes.0
        } else {
            seeded(f).0
        }
    } else if !f.minutes.is_wildcard {
        minutes.0
    } else if f.seconds.is_wildcard {
        seconds_parts(f.seconds.values, f.seconds.is_wildcard).0
    } else if !specific_seconds(f) {
        seeded(f).0 + minutes.0
    } else {
        seeded(f).0
    }
}

/// What stands in the end before the hours are named: the clause of the
/// seconds, and ` on the ` where there is one.
pub open spec fn lead_text(f: CronFieldsSpec) -> Seq<char> {
    if specific_seconds(f) {
        seeded(f).1 + " on the "@
    } else {
        seeded(f).1
    }
}

/// The rest of the time of day.
pub open spec fn end_text(f: CronFieldsSpec) -> Seq<char> {
    let minutes = minutes_parts(f.minutes.values, f.minutes.is_wildcard);
    let hours = number_list_text(f.hours.values);
    if !f.hours.is_wildcard {
        if !f.minutes.is_wildcard {
            if on_the_hour_only(f) {
                lead_text(f) + hours + " hour"@
            } else {
                lead_text(f) + minutes.1 + " past the "@ + hours + " hour"@
            }
        } else {
            lead_text(f) + "minute of "@ + hours + " hour"@
        }
    } else if !f.minutes.is_wildcard {
        if !on_the_hour(f.minutes.values) && date_restricted(f) {
            seeded(f).1 + minutes.1 + " past every hour"@
        } else {
            seeded(f).1 + minutes.1
        }
    } else {
        seeded(f).1
    }
}

/// The words of the time of day.
pub open spec fn time_words(f: CronFieldsSpec) -> Seq<Seq<char>> {
    if clock_like(f) {
        Seq::empty()
    } else {
        seq![head_text(f), beginning_text(f), end_text(f)]
    }
}

/// The words of the days of the month.
pub open spec fn day_of_month_words(f: CronFieldsSpec) -> Seq<Seq<char>> {
    if !days_of_month_restricted(f) {
        Seq::empty()
    } else if f.months.is_wildcard {
        seq!["on the "@ + number_list_text(f.days_of_month.values), "of every month"@]
    } else {
        seq!["on the "@ + number_list_text(f.days_of_month.values)]
    }
}

/// The words of the days of the week.
pub open spec fn day_of_week_words(f: CronFieldsSpec) -> Seq<Seq<char>> {
    if f.days_of_week.is_wildcard {
        Seq::empty()
    } else if days_of_month_restricted(f) {
        seq!["and every"@, date_list_text(f.days_of_week.values, DateNaming::DOW)]
    } else {
        seq!["on"@, date_list_text(f.days_of_week.values, DateNaming::DOW)]
    }
}

/// The words of the months.
pub open spec fn month_words(f: CronFieldsSpec) -> Seq<Seq<char>> {
    if f.months.is_wildcard {
        Seq::empty()
    } else if f.months.values.len() == 12 {
        seq!["day of every month"@]
    } else {
        seq!["in "@ + date_list_text(f.months.values, DateNaming::MON)]
    }
}

/// All the words of the sentence, in order; some may be empty.
pub open spec fn sentence_words(f: CronFieldsSpec) -> Seq<Seq<char>> {
    time_words(f) + day_of_month_words(f) + day_of_week_words(f) + month_words(f)
}

/// The sentence of a schedule.
pub open spec fn sentence_text(f: CronFieldsSpec) -> Seq<char> {
    join_words_text(sentence_words(f))
}

/// Tells whether the seconds get a clause of their own.
fn has_specific_seconds(fields: &CronFields) -> (yes: bool)
    ensures
        yes == specific_seconds(fields@),
{
    let n: usize = fields.seconds.values.len();
    !fields.seconds.is_wildcard && ((n > 1 && n < 60) || (n == 1 && fields.seconds.values[0] != 0))
}

/// Tells whether the day of the month restricts the schedule.
fn only_specific_days_of_month(fields: &CronFields) -> (yes: bool)
    ensures
        yes == days_of_month_restricted(fields@),
{
    !fields.days_of_month.is_wildcard && fields.days_of_month.values.len() != 31
}

/// Tells whether the schedule gets no time of day.
fn is_clock_like(fields: &CronFields) -> (yes: bool)
    ensures
        yes == clock_like(fields@),
{
    !fields.hours.is_wildcard && fields.hours.values.len() <= 2 && !fields.minutes.is_wildcard
        && fields.minutes.values.len() <= 2 && !fields.seconds.is_wildcard
        && fields.seconds.values.len() <= 2
}

/// Pushes one word.
fn push_word(words: &mut Vec<String>, word: String)
    ensures
        texts(final(words)@) == texts(old(words)@).push(word@),
{
    proof {
        lemma_texts_push(words@, word);
    }
    words.push(word);
}

/// Pushes the words of the time of day.
fn push_time_words(fields: &CronFields, words: &mut Vec<String>)
    requires
        fields@.wf(),
    ensures
        texts(final(words)@) == texts(old(words)@) + time_words(fields@),
{
    let ghost f = fields@;
    let ghost before = texts(words@);
    if is_clock_like(fields) {
        assert(before + time_words(f) =~= before);
        return ;
    }
    let seconds = get_seconds_text_parts(fields.seconds.values.as_slice(), fields.seconds.is_wildcard);
    let minutes = get_minutes_text_parts(fields.minutes.values.as_slice(), fields.minutes.is_wildcard);
    let every_second: bool = fields.seconds.is_wildcard;
    let every_minute: bool = fields.minutes.is_wildcard;
    let every_hour: bool = fields.hours.is_wildcard;
    let specific: bool = has_specific_seconds(fields);
    let mut head: String = String::from_str("Every");
    let mut beginning: String = String::new();
    let mut end: String = String::new();
    if specific {
        beginning = seconds.0.clone();
        end = seconds.1.clone();
    }
    assert(beginning@ == seeded(f).0 && end@ == seeded(f).1);
    if !every_hour {
        if specific {
            end.append(" on the ");
        }
        if !every_minute {
            if !specific && is_on_the_hour(fields.minutes.values.as_slice()) {
                head = String::from_str("On the");
            } else {
                beginning = minutes.0;
                end.append(minutes.1.as_str());
                end.append(" past the ");
            }
        } else {
            end.append("minute of ");
        }
        end.append(number_list(fields.hours.values.as_slice()).as_str());
        end.append(" hour");
    } else if !every_minute {
        beginning = minutes.0;
        end.append(minutes.1.as_str());
        if !is_on_the_hour(fields.minutes.values.as_slice()) && (only_specific_days_of_month(
            fields,
        ) || !fields.days_of_week.is_wildcard || !fields.months.is_wildcard) {
            end.append(" past every hour");
        }
    } else if every_second {
        beginning = seconds.0;
    } else if !specific {
        beginning.append(minutes.0.as_str());
    }
    assert(head@ == head_text(f));
    assert(beginning@ == beginning_text(f));
    assert(end@ == end_text(f));
    push_word(words, head);
    push_word(words, beginning);
    push_word(words, end);
    assert(texts(words@) =~= before + time_words(f));
}

/// Pushes the words of the days of the month, of the days of the week and
/// of the months.
fn push_date_words(fields: &CronFields, words: &mut Vec<String>)
    requires
        fields@.wf(),
    ensures
        texts(final(words)@) == texts(old(words)@) + day_of_month_words(fields@)
            + day_of_week_words(fields@) + month_words(fields@),
{
    let ghost f = fields@;
    let ghost before = texts(words@);
    let restricted: bool = only_specific_days_of_month(fields);
    if restricted {
        let mut on: String = String::from_str("on the ");
        on.append(number_list(fields.days_of_month.values.as_slice()).as_str());
        push_word(words, on);
        if fields.months.is_wildcard {
            push_word(words, String::from_str("of every month"));
        }
    }
    assert(texts(words@) =~= before + day_of_month_words(f));
    let ghost with_days = texts(words@);
    if !fields.days_of_week.is_wildcard {
        if restricted {
            push_word(words, String::from_str("and every"));
        } else {
            push_word(words, String::from_str("on"));
        }
        push_word(words, date_list(fields.days_of_week.values.as_slice(), DateNaming::DOW));
    }
    assert(texts(words@) =~= with_days + day_of_week_words(f));
    let ghost with_week = texts(words@);
    if !fields.months.is_wildcard {
        if fields.months.values.len() == 12 {
            push_word(words, String::from_str("day of every month"));
        } else {
            let mut within: String = String::from_str("in ");
            within.append(date_list(fields.months.values.as_slice(), DateNaming::MON).as_str());
            push_word(words, within);
        }
    }
    assert(texts(words@) =~= with_week + month_words(f));
}

/// Describes a schedule in one sentence.
pub fn describe(fields: &CronFields) -> (sentence: String)
    requires
        fields@.wf(),
    ensures
        sentence@ == sentence_text(fields@),
        tidy(sentence@),
{
    proof {
        lemma_sentence_tidy(fields@);
    }
    let mut words: Vec<String> = Vec::new();
    assert(texts(words@) =~= Seq::<Seq<char>>::empty());
    push_time_words(fields, &mut words);
    push_date_words(fields, &mut words);
    assert(texts(words@) =~= sentence_words(fields@));
    join_words(&words)
}

} // verus!
