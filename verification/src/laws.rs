//! What holds of every sentence, and of the lists inside it.

use crate::field::ascending;
use crate::field::pattern_of;
use crate::field::StepPattern;
use crate::field::CronFieldsSpec;
use crate::fragments::minutes_parts;
use crate::fragments::seconds_parts;
use crate::lists::date_items;
use crate::lists::date_list_text;
use crate::lists::date_name_text;
use crate::lists::number_items;
use crate::lists::number_list_text;
use crate::lists::DateNaming;
use crate::ordinal::ordinal_text;
use crate::sentence::beginning_text;
use crate::sentence::clock_like;
use crate::sentence::day_of_month_words;
use crate::sentence::day_of_week_words;
use crate::sentence::end_text;
use crate::sentence::head_text;
use crate::sentence::lead_text;
use crate::sentence::month_words;
use crate::sentence::seeded;
use crate::sentence::sentence_text;
use crate::sentence::sentence_words;
use crate::sentence::specific_seconds;
use crate::sentence::time_words;
use crate::text::comma_list_text;
use crate::text::decimal_digits;
use crate::text::join_words_text;
use crate::tidy::all_tidy;
use crate::tidy::lemma_all_tidy_append;
use crate::tidy::lemma_and_list_phrase;
use crate::tidy::lemma_append;
use crate::tidy::lemma_decimal_spaceless;
use crate::tidy::lemma_join_words_tidy;
use crate::tidy::lemma_ordinal_spaceless;
use crate::tidy::lemma_spaceless_append;
use crate::tidy::lemma_spaceless_phrase;
use crate::tidy::no_double_space;
use crate::tidy::opens;
use crate::tidy::phrase;
use crate::tidy::tidy;
use vstd::prelude::*;

verus! {

/// A list of numbers is a phrase.
pub proof fn lemma_number_list_phrase(values: Seq<u32>)
    requires
        values.len() > 0,
    ensures
        phrase(number_list_text(values)),
{
    let items = number_items(values);
    assert forall|i: int| 0 <= i < items.len() implies phrase(#[trigger] items[i]) by {
        lemma_decimal_spaceless(values[i] as nat);
        lemma_ordinal_spaceless(values[i] as nat);
        lemma_spaceless_phrase(items[i]);
    }
    lemma_and_list_phrase(items);
}

/// The name of a day or of a month is a phrase.
pub proof fn lemma_date_name_phrase(value: u32, kind: DateNaming)
    ensures
        phrase(date_name_text(value, kind)),
{
    reveal_strlit("DAY(");
    reveal_strlit("MONTH(");
    reveal_strlit(")");
    let digits = decimal_digits((value - 1) as nat);
    lemma_decimal_spaceless((value - 1) as nat);
    match kind {
        DateNaming::DOW => {
            lemma_spaceless_append("DAY("@, digits);
            lemma_spaceless_append("DAY("@ + digits, ")"@);
        },
        DateNaming::MON => {
            lemma_spaceless_append("MONTH("@, digits);
            lemma_spaceless_append("MONTH("@ + digits, ")"@);
        },
    }
    lemma_spaceless_phrase(date_name_text(value, kind));
}

/// A list of days or of months is a phrase.
pub proof fn lemma_date_list_phrase(values: Seq<u32>, kind: DateNaming)
    requires
        values.len() > 0,
    ensures
        phrase(date_list_text(values, kind)),
{
    let items = date_items(values, kind);
    assert forall|i: int| 0 <= i < items.len() implies phrase(#[trigger] items[i]) by {
        lemma_date_name_phrase(values[i], kind);
    }
    lemma_and_list_phrase(items);
}

/// Both texts of the seconds are tidy, and a field that is written out
/// has a clause.
pub proof fn lemma_seconds_parts_tidy(values: Seq<u32>, wildcard: bool)
    requires
        values.len() > 0,
    ensures
        tidy(seconds_parts(values, wildcard).0),
        tidy(seconds_parts(values, wildcard).1),
        !wildcard ==> phrase(seconds_parts(values, wildcard).1),
{
    reveal_strlit("second");
    reveal_strlit("other second");
    reveal_strlit(" seconds");
    reveal_strlit("minute");
    reveal_strlit("starting on the ");
    reveal_strlit("first and 30th second");
    reveal_strlit(" second");
    lemma_number_list_phrase(values);
    lemma_append("starting on the "@, "first and 30th second"@);
    lemma_append("starting on the "@, number_list_text(values));
    lemma_append("starting on the "@ + number_list_text(values), " second"@);
}

/// Both texts of the minutes are tidy, and a field that is written out
/// has a clause.
pub proof fn lemma_minutes_parts_tidy(values: Seq<u32>, wildcard: bool)
    requires
        values.len() > 0,
    ensures
        tidy(minutes_parts(values, wildcard).0),
        tidy(minutes_parts(values, wildcard).1),
        !wildcard ==> phrase(minutes_parts(values, wildcard).1),
{
    reveal_strlit("minute");
    reveal_strlit("hour, on the hour");
    reveal_strlit("other minute");
    reveal_strlit(" minutes");
    reveal_strlit("first and 30th minute");
    reveal_strlit(" minute");
    lemma_number_list_phrase(values);
    lemma_append(number_list_text(values), " minute"@);
}

/// The words after the head are tidy.
pub proof fn lemma_beginning_tidy(f: CronFieldsSpec)
    requires
        f.wf(),
    ensures
        tidy(beginning_text(f)),
{
    lemma_seconds_parts_tidy(f.seconds.values, f.seconds.is_wildcard);
    lemma_minutes_parts_tidy(f.minutes.values, f.minutes.is_wildcard);
    let minutes = minutes_parts(f.minutes.values, f.minutes.is_wildcard);
    if !specific_seconds(f) {
        assert(seeded(f).0 + minutes.0 =~= minutes.0);
    }
}

/// What stands before the hours has no double space and, unless it is
/// empty, opens with the clause of the seconds.
pub proof fn lemma_lead_shape(f: CronFieldsSpec)
    requires
        f.seconds.values.len() > 0,
    ensures
        no_double_space(lead_text(f)),
        lead_text(f).len() == 0 || opens(lead_text(f)),
        tidy(seeded(f).1),
{
    reveal_strlit(" on the ");
    lemma_seconds_parts_tidy(f.seconds.values, f.seconds.is_wildcard);
    if specific_seconds(f) {
        lemma_append(seeded(f).1, " on the "@);
    }
}

/// A lead, the hours and ` hour` make a phrase.
pub proof fn lemma_hours_end(lead: Seq<char>, hours: Seq<char>)
    requires
        no_double_space(lead),
        lead.len() == 0 || opens(lead),
        phrase(hours),
    ensures
        phrase(lead + hours + " hour"@),
{
    reveal_strlit(" hour");
    lemma_append(lead, hours);
    lemma_append(lead + hours, " hour"@);
}

/// A lead, the clause of the minutes, ` past the `, the hours and ` hour`
/// make a phrase.
pub proof fn lemma_minutes_past_end(lead: Seq<char>, minutes: Seq<char>, hours: Seq<char>)
    requires
        no_double_space(lead),
        lead.len() == 0 || opens(lead),
        phrase(minutes),
        phrase(hours),
    ensures
        phrase(lead + minutes + " past the "@ + hours + " hour"@),
{
    reveal_strlit(" past the ");
    reveal_strlit(" hour");
    lemma_append(lead, minutes);
    lemma_append(lead + minutes, " past the "@);
    lemma_append(lead + minutes + " past the "@, hours);
    lemma_append(lead + minutes + " past the "@ + hours, " hour"@);
}

/// A lead, `minute of `, the hours and ` hour` make a phrase.
pub proof fn lemma_minute_of_end(lead: Seq<char>, hours: Seq<char>)
    requires
        no_double_space(lead),
        lead.len() == 0 || opens(lead),
        phrase(hours),
    ensures
        phrase(lead + "minute of "@ + hours + " hour"@),
{
    reveal_strlit("minute of ");
    reveal_strlit(" hour");
    lemma_append(lead, "minute of "@);
    lemma_append(lead + "minute of "@, hours);
    lemma_append(lead + "minute of "@ + hours, " hour"@);
}

/// The clause of the seconds and that of the minutes make a phrase, with
/// or without ` past every hour` behind them.
pub proof fn lemma_every_hour_end(clause: Seq<char>, minutes: Seq<char>)
    requires
        tidy(clause),
        phrase(minutes),
    ensures
        phrase(clause + minutes),
        phrase(clause + minutes + " past every hour"@),
{
    reveal_strlit(" past every hour");
    lemma_append(clause, minutes);
    lemma_append(clause + minutes, " past every hour"@);
}

/// The end of the time of day is tidy.
pub proof fn lemma_end_tidy(f: CronFieldsSpec)
    requires
        f.wf(),
    ensures
        tidy(end_text(f)),
{
    lemma_lead_shape(f);
    lemma_minutes_parts_tidy(f.minutes.values, f.minutes.is_wildcard);
    lemma_number_list_phrase(f.hours.values);
    let minutes = minutes_parts(f.minutes.values, f.minutes.is_wildcard).1;
    let hours = number_list_text(f.hours.values);
    if !f.hours.is_wildcard {
        if !f.minutes.is_wildcard {
            lemma_hours_end(lead_text(f), hours);
            lemma_minutes_past_end(lead_text(f), minutes, hours);
        } else {
            lemma_minute_of_end(lead_text(f), hours);
        }
    } else if !f.minutes.is_wildcard {
        lemma_every_hour_end(seeded(f).1, minutes);
    }
}

/// The head of the sentence is a phrase.
pub proof fn lemma_head_phrase(f: CronFieldsSpec)
    ensures
        phrase(head_text(f)),
{
    reveal_strlit("On the");
    reveal_strlit("Every");
}

/// The words of the time of day are tidy.
pub proof fn lemma_time_words_tidy(f: CronFieldsSpec)
    requires
        f.wf(),
    ensures
        all_tidy(time_words(f)),
{
    lemma_head_phrase(f);
    lemma_beginning_tidy(f);
    lemma_end_tidy(f);
    let words = time_words(f);
    assert forall|i: int| 0 <= i < words.len() implies tidy(#[trigger] words[i]) by {
        if i == 0 {
            assert(words[i] == head_text(f));
        } else if i == 1 {
            assert(words[i] == beginning_text(f));
        } else {
            assert(words[i] == end_text(f));
        }
    }
}

/// The words of the days of the month are tidy.
pub proof fn lemma_day_of_month_words_tidy(f: CronFieldsSpec)
    requires
        f.wf(),
    ensures
        all_tidy(day_of_month_words(f)),
{
    reveal_strlit("on the ");
    reveal_strlit("of every month");
    lemma_number_list_phrase(f.days_of_month.values);
    lemma_append("on the "@, number_list_text(f.days_of_month.values));
}

/// The words of the days of the week are tidy.
pub proof fn lemma_day_of_week_words_tidy(f: CronFieldsSpec)
    requires
        f.wf(),
    ensures
        all_tidy(day_of_week_words(f)),
{
    reveal_strlit("and every");
    reveal_strlit("on");
    lemma_date_list_phrase(f.days_of_week.values, DateNaming::DOW);
}

/// The words of the months are tidy.
pub proof fn lemma_month_words_tidy(f: CronFieldsSpec)
    requires
        f.wf(),
    ensures
        all_tidy(month_words(f)),
{
    reveal_strlit("day of every month");
    reveal_strlit("in ");
    lemma_date_list_phrase(f.months.values, DateNaming::MON);
    lemma_append("in "@, date_list_text(f.months.values, DateNaming::MON));
}

/// Every word of the sentence is tidy.
pub proof fn lemma_sentence_words_tidy(f: CronFieldsSpec)
    requires
        f.wf(),
    ensures
        all_tidy(sentence_words(f)),
{
    lemma_time_words_tidy(f);
    lemma_day_of_month_words_tidy(f);
    lemma_day_of_week_words_tidy(f);
    lemma_month_words_tidy(f);
    lemma_all_tidy_append(time_words(f), day_of_month_words(f));
    lemma_all_tidy_append(time_words(f) + day_of_month_words(f), day_of_week_words(f));
    lemma_all_tidy_append(
        time_words(f) + day_of_month_words(f) + day_of_week_words(f),
        month_words(f),
    );
}

/// The sentence of a schedule has no two spaces in a row and no white space
/// at its start or at its end.
pub proof fn lemma_sentence_tidy(f: CronFieldsSpec)
    requires
        f.wf(),
    ensures
        tidy(sentence_text(f)),
{
    lemma_sentence_words_tidy(f);
    lemma_join_words_tidy(sentence_words(f));
}

/// A schedule whose six fields are all wildcards reads `Every second`.
pub proof fn lemma_all_wildcards(f: CronFieldsSpec)
    requires
        f.seconds.is_wildcard,
        f.minutes.is_wildcard,
        f.hours.is_wildcard,
        f.days_of_month.is_wildcard,
        f.months.is_wildcard,
        f.days_of_week.is_wildcard,
    ensures
        sentence_text(f) == "Every second"@,
{
    let words = sentence_words(f);
    assert(words =~= seq!["Every"@, "second"@, Seq::<char>::empty()]);
    reveal_strlit("Every");
    reveal_strlit("second");
    lemma_join_three("Every"@, "second"@, Seq::empty());
    reveal_strlit(" ");
    reveal_strlit("Every second");
    assert("Every"@ + " "@ + "second"@ =~= "Every second"@);
}

/// A schedule that fires on one second `k` other than 0 of every minute,
/// with wildcards in the other five fields, reads `Every minute starting on
/// the`, the ordinal of `k`, `second`.
pub proof fn lemma_single_second(f: CronFieldsSpec, k: u32)
    requires
        k != 0,
        f.seconds.values == seq![k],
        !f.seconds.is_wildcard,
        f.minutes.is_wildcard,
        f.hours.is_wildcard,
        f.days_of_month.is_wildcard,
        f.months.is_wildcard,
        f.days_of_week.is_wildcard,
    ensures
        sentence_text(f) == "Every minute starting on the "@ + ordinal_text(k as nat) + " second"@,
{
    let values = f.seconds.values;
    assert(values[0] == k);
    assert(number_list_text(values) == ordinal_text(k as nat));
    let clause = "starting on the "@ + ordinal_text(k as nat) + " second"@;
    assert(end_text(f) == clause);
    assert(beginning_text(f) == "minute"@);
    let words = sentence_words(f);
    assert(words =~= seq!["Every"@, "minute"@, clause]);
    reveal_strlit("Every");
    reveal_strlit("minute");
    lemma_join_three("Every"@, "minute"@, clause);
    reveal_strlit(" ");
    reveal_strlit("starting on the ");
    reveal_strlit("Every minute starting on the ");
    assert("Every"@ + " "@ + "minute"@ + " "@ + clause =~= "Every minute starting on the "@
        + ordinal_text(k as nat) + " second"@);
}

/// Three words, of which the first two are not empty, joined.
proof fn lemma_join_three(a: Seq<char>, b: Seq<char>, c: Seq<char>)
    requires
        a.len() > 0,
        b.len() > 0,
    ensures
        join_words_text(seq![a, b, c]) == if c.len() == 0 {
            a + " "@ + b
        } else {
            a + " "@ + b + " "@ + c
        },
{
    let three = seq![a, b, c];
    let two = seq![a, b];
    let one = seq![a];
    assert(three.drop_last() =~= two);
    assert(two.drop_last() =~= one);
    assert(one.drop_last() =~= Seq::<Seq<char>>::empty());
    assert(join_words_text(one.drop_last()).len() == 0);
    assert(join_words_text(one) == a);
    assert(join_words_text(two) == a + " "@ + b);
}

/// Ascending lists that hold the same values are the same list.
pub proof fn lemma_ascending_unique(a: Seq<u32>, b: Seq<u32>)
    requires
        ascending(a),
        ascending(b),
        a.to_set() == b.to_set(),
    ensures
        a == b,
    decreases a.len(),
{
    if a.len() == 0 {
        if b.len() > 0 {
            assert(b.to_set().contains(b[0])) by {
                assert(b.contains(b[0]));
            }
            assert(a.contains(b[0]));
        }
        assert(a =~= b);
    } else {
        assert(a.to_set().contains(a.last())) by {
            assert(a.contains(a.last()));
        }
        assert(b.contains(a.last()));
        let j = choose|j: int| 0 <= j < b.len() && b[j] == a.last();
        assert(b.to_set().contains(b.last())) by {
            assert(b.contains(b.last()));
        }
        assert(a.contains(b.last()));
        let i = choose|i: int| 0 <= i < a.len() && a[i] == b.last();
        assert(a.last() == b.last());
        let a_front = a.drop_last();
        let b_front = b.drop_last();
        assert forall|x: u32| a_front.to_set().contains(x) <==> b_front.to_set().contains(x) by {
            if a_front.contains(x) {
                let m = choose|m: int| 0 <= m < a_front.len() && a_front[m] == x;
                assert(a[m] == x && x < a.last());
                assert(a.contains(x));
                assert(b.to_set().contains(x));
                assert(b.contains(x));
                let p = choose|p: int| 0 <= p < b.len() && b[p] == x;
                assert(b_front[p] == x);
                assert(b_front.contains(x));
            }
            if b_front.contains(x) {
                let m = choose|m: int| 0 <= m < b_front.len() && b_front[m] == x;
                assert(b[m] == x && x < b.last());
                assert(b.contains(x));
                assert(a.to_set().contains(x));
                assert(a.contains(x));
                let p = choose|p: int| 0 <= p < a.len() && a[p] == x;
                assert(a_front[p] == x);
                assert(a_front.contains(x));
            }
        }
        assert(a_front.to_set() =~= b_front.to_set());
        lemma_ascending_unique(a_front, b_front);
        assert(a =~= a_front.push(a.last()));
        assert(b =~= b_front.push(b.last()));
    }
}

/// The text of a list of numbers depends only on which values the field
/// holds, as long as the field keeps them in ascending order.
pub proof fn lemma_number_list_of_set(a: Seq<u32>, b: Seq<u32>)
    requires
        ascending(a),
        ascending(b),
        a.to_set() == b.to_set(),
    ensures
        number_list_text(a) == number_list_text(b),
{
    lemma_ascending_unique(a, b);
}

/// A list of one day or one month is the name of that day or month,
/// nothing else.
pub proof fn lemma_date_list_single(value: u32, kind: DateNaming)
    ensures
        date_list_text(seq![value], kind) == date_name_text(value, kind),
{
}

/// A list of two or more days or months is the names of all but the last,
/// separated by commas, then ` and ` and the name of the last.
pub proof fn lemma_date_list_many(values: Seq<u32>, kind: DateNaming)
    requires
        values.len() >= 2,
    ensures
        date_list_text(values, kind) == comma_list_text(date_items(values.drop_last(), kind))
            + " and "@ + date_name_text(values.last(), kind),
{
    assert(date_items(values, kind).drop_last() =~= date_items(values.drop_last(), kind));
}

/// With a step known only for fields of exactly two values, no field
/// counts as every other or as stepped: fields of more than two values are
/// listed value by value.
pub proof fn lemma_pattern_never_stepped(values: Seq<u32>, wildcard: bool)
    ensures
        pattern_of(values, wildcard) != StepPattern::EveryOther,
        pattern_of(values, wildcard) != StepPattern::Stepped,
{
}

/// The first word of a row, when it is not empty, starts the joined text.
pub proof fn lemma_join_words_starts(words: Seq<Seq<char>>)
    requires
        words.len() > 0,
        words[0].len() > 0,
    ensures
        words[0].is_prefix_of(join_words_text(words)),
    decreases words.len(),
{
    let front = words.drop_last();
    if front.len() == 0 {
        assert(join_words_text(front).len() == 0);
        assert(words.last() == words[0]);
    } else {
        assert(front[0] == words[0]);
        lemma_join_words_starts(front);
    }
}

/// Unless the schedule is clock-like, its sentence opens with its head:
/// `Every` or `On the`.
pub proof fn lemma_sentence_opens_with_head(f: CronFieldsSpec)
    requires
        !clock_like(f),
    ensures
        head_text(f).is_prefix_of(sentence_text(f)),
        head_text(f) == "Every"@ || head_text(f) == "On the"@,
{
    reveal_strlit("Every");
    reveal_strlit("On the");
    let words = sentence_words(f);
    assert(words[0] == head_text(f));
    lemma_join_words_starts(words);
}

} // verus!
