//! Lists of numbers and of day or month names, written `a, b and c`.

use crate::field::one_based;
use crate::ordinal::ordinal_text;
use crate::ordinal::ordinalize;
use crate::text::and_list;
use crate::text::and_list_text;
use crate::text::decimal;
use crate::text::decimal_digits;
use crate::text::lemma_texts_push;
use crate::text::texts;
use vstd::prelude::*;

verus! {

/// How the values are written in a list of numbers: each as its decimal
/// numeral, only the last as an ordinal.
pub open spec fn number_items(values: Seq<u32>) -> Seq<Seq<char>> {
    Seq::new(
        values.len(),
        |i: int|
            if i + 1 == values.len() {
                ordinal_text(values[i] as nat)
            } else {
                decimal_digits(values[i] as nat)
            },
    )
}

/// The text of a list of numbers: `5th`, `15 and 16th`, `0, 2, 4 and 20th`.
pub open spec fn number_list_text(values: Seq<u32>) -> Seq<char>
    recommends
        values.len() > 0,
{
    and_list_text(number_items(values))
}

/// Whether a value counts days of the week or months.
#[derive(Clone, Copy, Debug, PartialEq, Eq, Structural)]
pub enum DateNaming {
    /// Days of the week.
    DOW,
    /// Months.
    MON,
}

/// The symbolic name of the day of the week or month with the one-based
/// number `value`: `DAY(k)` or `MONTH(k)`, where `k` is `value - 1`.
pub open spec fn date_name_text(value: u32, kind: DateNaming) -> Seq<char>
    recommends
        value >= 1,
{
    match kind {
        DateNaming::DOW => "DAY("@ + decimal_digits((value - 1) as nat) + ")"@,
        DateNaming::MON => "MONTH("@ + decimal_digits((value - 1) as nat) + ")"@,
    }
}

/// The names of the values, in order.
pub open spec fn date_items(values: Seq<u32>, kind: DateNaming) -> Seq<Seq<char>> {
    Seq::new(values.len(), |i: int| date_name_text(values[i], kind))
}

/// The text of a list of days or months: names only, no ordinals.
pub open spec fn date_list_text(values: Seq<u32>, kind: DateNaming) -> Seq<char>
    recommends
        values.len() > 0,
{
    and_list_text(date_items(values, kind))
}

/// Lists the numbers of a field, the last one as an ordinal.
pub fn number_list(numbers: &[u32]) -> (text: String)
    requires
        numbers@.len() > 0,
    ensures
        text@ == number_list_text(numbers@),
{
    let n: usize = numbers.len();
    let ghost all: Seq<Seq<char>> = number_items(numbers@);
    let mut items: Vec<String> = Vec::new();
    let mut i: usize = 0;
    while i + 1 < n
        invariant
            n == numbers@.len(),
            n > 0,
            i + 1 <= n,
            all == number_items(numbers@),
            texts(items@) == all.take(i as int),
        decreases n - i,
    {
        let item: String = decimal(numbers[i] as u64);
        proof {
            lemma_texts_push(items@, item);
        }
        items.push(item);
        assert(texts(items@) =~= all.take(i + 1));
        i += 1;
    }
    let last: String = ordinalize(numbers[n - 1]);
    proof {
        lemma_texts_push(items@, last);
    }
    items.push(last);
    assert(texts(items@) =~= all);
    and_list(&items)
}

/// Names one day of the week or one month.
pub fn number_to_date_name(value: u32, kind: DateNaming) -> (name: String)
    requires
        value >= 1,
    ensures
        name@ == date_name_text(value, kind),
{
    let mut name: String = match kind {
        DateNaming::DOW => String::from_str("DAY("),
        DateNaming::MON => String::from_str("MONTH("),
    };
    let index: String = decimal((value - 1) as u64);
    name.append(index.as_str());
    name.append(")");
    name
}

/// Lists the days of the week or the months of a field by name.
pub fn date_list(numbers: &[u32], kind: DateNaming) -> (text: String)
    requires
        numbers@.len() > 0,
        one_based(numbers@),
    ensures
        text@ == date_list_text(numbers@, kind),
{
    let n: usize = numbers.len();
    let ghost all: Seq<Seq<char>> = date_items(numbers@, kind);
    let mut items: Vec<String> = Vec::new();
    let mut i: usize = 0;
    while i < n
        invariant
            n == numbers@.len(),
            i <= n,
            one_based(numbers@),
            all == date_items(numbers@, kind),
            texts(items@) == all.take(i as int),
        decreases n - i,
    {
        let item: String = number_to_date_name(numbers[i], kind);
        proof {
            lemma_texts_push(items@, item);
        }
        items.push(item);
        assert(texts(items@) =~= all.take(i + 1));
        i += 1;
    }
    assert(texts(items@) =~= all);
    and_list(&items)
}

} // verus!
