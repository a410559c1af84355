//! From the text of a cron expression to its sentence.
//!
//! The values of the six fields come from the `cron` crate. Whether a field
//! was written `*` is read off the text itself: the expression is cut at
//! white space, and the field at a position is a wildcard when the piece at
//! that position is exactly `*`.

use crate::field::is_one_based;
use crate::field::is_well_formed;
use crate::field::one_based;
use crate::field::well_formed;
use crate::field::CronFields;
use crate::field::CronFieldsSpec;
use crate::field::FieldSpec;
use crate::field::ResolvedField;
use crate::sentence::describe;
use crate::sentence::sentence_text;
use crate::text::is_space;
use crate::text::is_whitespace;
use crate::tidy::tidy;
use cron::Schedule;
use cron::TimeUnitSpec;
use std::str::FromStr;
use vstd::prelude::*;

verus! {

/// The length of the longest prefix that holds no white space.
pub open spec fn word_len(s: Seq<char>) -> nat
    decreases s.len(),
{
    if s.len() == 0 || is_space(s[0]) {
        0
    } else {
        1 + word_len(s.drop_first())
    }
}

/// The pieces of a text between its runs of white space, in order. No piece
/// is empty.
pub open spec fn split_fields(s: Seq<char>) -> Seq<Seq<char>>
    decreases s.len(),
    via split_fields_decreases
{
    if s.len() == 0 {
        Seq::empty()
    } else if is_space(s[0]) {
        split_fields(s.drop_first())
    } else {
        seq![s.take(word_len(s) as int)] + split_fields(s.skip(word_len(s) as int))
    }
}

#[via_fn]
proof fn split_fields_decreases(s: Seq<char>) {
    lemma_word_len_bound(s);
}

/// A word is no longer than the text it starts.
pub proof fn lemma_word_len_bound(s: Seq<char>)
    ensures
        word_len(s) <= s.len(),
        s.len() > 0 && !is_space(s[0]) ==> word_len(s) >= 1,
    decreases s.len(),
{
    if s.len() > 0 && !is_space(s[0]) {
        lemma_word_len_bound(s.drop_first());
    }
}

/// For each piece, whether it is exactly `*`.
pub open spec fn stars(pieces: Seq<Seq<char>>) -> Seq<bool> {
    Seq::new(pieces.len(), |i: int| pieces[i] == seq!['*'])
}

/// The field at `position` of the expression is written `*`. An expression
/// with fewer pieces has no wildcard there.
pub open spec fn is_wildcard_at(expression: Seq<char>, position: int) -> bool {
    let flags = stars(split_fields(expression));
    0 <= position < flags.len() && flags[position]
}

/// The characters of a string.
pub fn chars_of(s: &str) -> (chars: Vec<char>)
    ensures
        chars@ == s@,
{
    let mut chars: Vec<char> = Vec::new();
    for c in it: s.chars()
        invariant
            chars@ == it.seq().take(it.index()),
    {
        chars.push(c);
    }
    chars
}

/// A run of `k` characters without white space, followed by white space
/// or by the end of the text, is the first word of the text.
pub proof fn lemma_word_len_is(s: Seq<char>, k: nat)
    requires
        k <= s.len(),
        forall|j: int| 0 <= j < k ==> !is_space(s[j]),
        k == s.len() || is_space(s[k as int]),
    ensures
        word_len(s) == k,
    decreases k,
{
    if k > 0 {
        let rest = s.drop_first();
        assert forall|j: int| 0 <= j < k - 1 implies !is_space(rest[j]) by {
            assert(rest[j] == s[j + 1]);
        }
        lemma_word_len_is(rest, (k - 1) as nat);
    }
}

/// The flags of two rows of pieces, one after the other.
pub proof fn lemma_stars_concat(a: Seq<Seq<char>>, b: Seq<Seq<char>>)
    ensures
        stars(a + b) == stars(a) + stars(b),
{
    assert(stars(a + b) =~= stars(a) + stars(b));
}

/// For each piece of the expression between white space, whether it is
/// exactly `*`.
pub fn wildcard_flags(expression: &str) -> (flags: Vec<bool>)
    ensures
        flags@ == stars(split_fields(expression@)),
{
    let chars: Vec<char> = chars_of(expression);
    let n: usize = chars.len();
    let ghost s: Seq<char> = chars@;
    let mut flags: Vec<bool> = Vec::new();
    let mut i: usize = 0;
    assert(s.skip(0) =~= s);
    assert(flags@ + stars(split_fields(s)) =~= stars(split_fields(s)));
    while i < n
        invariant
            n == chars.len(),
            s == chars@,
            i <= n,
            stars(split_fields(s)) == flags@ + stars(split_fields(s.skip(i as int))),
        decreases n - i,
    {
        let ghost rest: Seq<char> = s.skip(i as int);
        if is_whitespace(chars[i]) {
            assert(rest.drop_first() =~= s.skip(i + 1));
            i += 1;
        } else {
            let start: usize = i;
            i += 1;
            while i < n && !is_whitespace(chars[i])
                invariant
                    n == chars.len(),
                    s == chars@,
                    start < i <= n,
                    forall|k: int| start <= k < i ==> !is_space(s[k]),
                decreases n - i,
            {
                i += 1;
            }
            let star: bool = i - start == 1 && chars[start] == '*';
            proof {
                let len = (i - start) as nat;
                lemma_word_len_is(rest, len);
                let word = rest.take(len as int);
                let after = split_fields(rest.skip(len as int));
                assert(rest.skip(len as int) =~= s.skip(i as int));
                assert(split_fields(rest) == seq![word] + after);
                lemma_stars_concat(seq![word], after);
                assert(star == (word == seq!['*'])) by {
                    if star {
                        assert(word =~= seq!['*']);
                    } else if word == seq!['*'] {
                        assert(word.len() == 1);
                        assert(word[0] == '*');
                    }
                }
                assert(stars(seq![word]) =~= seq![star]);
                assert(flags@.push(star) + stars(after) =~= flags@ + (seq![star] + stars(after)));
            }
            flags.push(star);
        }
    }
    assert(flags@ + stars(split_fields(s.skip(n as int))) =~= flags@);
    flags
}

/// The values of the six fields of a schedule, as contracts speak of them.
pub struct FieldValuesSpec {
    pub seconds: Seq<u32>,
    pub minutes: Seq<u32>,
    pub hours: Seq<u32>,
    pub days_of_month: Seq<u32>,
    pub months: Seq<u32>,
    pub days_of_week: Seq<u32>,
}

impl FieldValuesSpec {
    /// Every field has at least one value, in ascending order; months and
    /// days of the week count from 1.
    pub open spec fn wf(self) -> bool {
        &&& well_formed(self.seconds)
        &&& well_formed(self.minutes)
        &&& well_formed(self.hours)
        &&& well_formed(self.days_of_month)
        &&& well_formed(self.months)
        &&& well_formed(self.days_of_week)
        &&& one_based(self.months)
        &&& one_based(self.days_of_week)
    }
}

/// The values that each of the six fields of a schedule matches.
#[derive(Clone, Debug)]
pub struct FieldValues {
    /// Seconds, from 0.
    pub seconds: Vec<u32>,
    /// Minutes, from 0.
    pub minutes: Vec<u32>,
    /// Hours, from 0.
    pub hours: Vec<u32>,
    /// Days of the month, from 1.
    pub days_of_month: Vec<u32>,
    /// Months, from 1.
    pub months: Vec<u32>,
    /// Days of the week, from 1.
    pub days_of_week: Vec<u32>,
}

impl View for FieldValues {
    type V = FieldValuesSpec;

    open spec fn view(&self) -> FieldValuesSpec {
        FieldValuesSpec {
            seconds: self.seconds@,
            minutes: self.minutes@,
            hours: self.hours@,
            days_of_month: self.days_of_month@,
            months: self.months@,
            days_of_week: self.days_of_week@,
        }
    }
}

impl FieldValues {
    /// Tells whether the values are fit to be described.
    pub fn is_valid(&self) -> (yes: bool)
        ensures
            yes == self@.wf(),
    {
        is_well_formed(self.seconds.as_slice()) && is_well_formed(self.minutes.as_slice())
            && is_well_formed(self.hours.as_slice()) && is_well_formed(
            self.days_of_month.as_slice(),
        ) && is_well_formed(self.months.as_slice()) && is_well_formed(
            self.days_of_week.as_slice(),
        ) && is_one_based(self.months.as_slice()) && is_one_based(self.days_of_week.as_slice())
    }
}

/// The fields of a schedule: the given values, and for each field the
/// wildcard flag that the text of the expression shows at its position.
pub open spec fn schedule_of(expression: Seq<char>, values: FieldValuesSpec) -> CronFieldsSpec {
    CronFieldsSpec {
        seconds: FieldSpec { values: values.seconds, is_wildcard: is_wildcard_at(expression, 0) },
        minutes: FieldSpec { values: values.minutes, is_wildcard: is_wildcard_at(expression, 1) },
        hours: FieldSpec { values: values.hours, is_wildcard: is_wildcard_at(expression, 2) },
        days_of_month: FieldSpec {
            values: values.days_of_month,
            is_wildcard: is_wildcard_at(expression, 3),
        },
        months: FieldSpec { values: values.months, is_wildcard: is_wildcard_at(expression, 4) },
        days_of_week: FieldSpec {
            values: values.days_of_week,
            is_wildcard: is_wildcard_at(expression, 5),
        },
    }
}

/// The error of the `cron` crate, `cron::error::Error`. It is carried from
/// the parser to where its message is read; nothing is known of what it
/// holds.
#[verifier::external_type_specification]
#[verifier::external_body]
pub struct ExCronError(cron::error::Error);

/// What `cron::Schedule::from_str` makes of an expression: `None` where it
/// rejects the expression, else the values of the six fields of the
/// schedule.
pub uninterp spec fn cron_values(expression: Seq<char>) -> Option<FieldValuesSpec>;

/// Calls `cron::Schedule::from_str` and reads the six fields of the schedule
/// with `seconds`, `minutes`, `hours`, `days_of_month`, `months` and
/// `days_of_week`, each through `TimeUnitSpec::iter`.
///
/// Trusted: the outcome depends on the expression alone. Of an accepted
/// expression every field has at least one value, the values come in
/// ascending order, and those of months and days of the week are at least 1.
#[verifier::external_body]
fn resolve(expression: &str) -> (r: Result<FieldValues, cron::error::Error>)
    ensures
        r is Ok <==> cron_values(expression@) is Some,
        r matches Ok(values) ==> cron_values(expression@) == Some(values@) && values@.wf(),
{
    let schedule = Schedule::from_str(expression)?;
    Ok(
        FieldValues {
            seconds: schedule.seconds().iter().collect(),
            minutes: schedule.minutes().iter().collect(),
            hours: schedule.hours().iter().collect(),
            days_of_month: schedule.days_of_month().iter().collect(),
            months: schedule.months().iter().collect(),
            days_of_week: schedule.days_of_week().iter().collect(),
        },
    )
}

/// Why an expression has no sentence: the parser rejected it.
#[derive(Clone, Debug)]
pub struct ParseError {
    /// The parser's own words.
    pub message: String,
}

/// The flag at a position, `false` where there is none.
fn flag_at(flags: &Vec<bool>, position: usize) -> (yes: bool)
    ensures
        yes == (position < flags@.len() && flags@[position as int]),
{
    position < flags.len() && flags[position]
}

/// Describes the schedule that has the given values and the wildcards of
/// the given expression.
pub fn describe_resolved(expression: &str, values: FieldValues) -> (sentence: String)
    requires
        values@.wf(),
    ensures
        sentence@ == sentence_text(schedule_of(expression@, values@)),
        tidy(sentence@),
{
    let flags: Vec<bool> = wildcard_flags(expression);
    let fields = CronFields {
        seconds: ResolvedField { values: values.seconds, is_wildcard: flag_at(&flags, 0) },
        minutes: ResolvedField { values: values.minutes, is_wildcard: flag_at(&flags, 1) },
        hours: ResolvedField { values: values.hours, is_wildcard: flag_at(&flags, 2) },
        days_of_month: ResolvedField {
            values: values.days_of_month,
            is_wildcard: flag_at(&flags, 3),
        },
        months: ResolvedField { values: values.months, is_wildcard: flag_at(&flags, 4) },
        days_of_week: ResolvedField {
            values: values.days_of_week,
            is_wildcard: flag_at(&flags, 5),
        },
    };
    assert(fields@ == schedule_of(expression@, values@));
    describe(&fields)
}

/// The sentence of a cron expression that the parser accepts.
pub fn prettify_cron(expression: &str) -> (sentence: String)
    requires
        cron_values(expression@) is Some,
    ensures
        sentence@ == sentence_text(schedule_of(expression@, cron_values(expression@)->0)),
        tidy(sentence@),
{
    let values: FieldValues = resolve(expression).unwrap();
    describe_resolved(expression, values)
}

/// The sentence of a cron expression, or the parser's error.
pub fn try_prettify_cron(expression: &str) -> (r: Result<String, ParseError>)
    ensures
        r is Ok <==> cron_values(expression@) is Some,
        r matches Ok(sentence) ==> sentence@ == sentence_text(
            schedule_of(expression@, cron_values(expression@)->0),
        ) && tidy(sentence@),
{
    match resolve(expression) {
        Ok(_) => Ok(prettify_cron(expression)),
        Err(error) => Err(ParseError { message: error.to_string() }),
    }
}

} // verus!
