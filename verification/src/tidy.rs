//! Tidy text: no two spaces in a row and no white space at either end.
//!
//! The lemmas here carry tidiness from the pieces of a text to the whole:
//! through the numerals, the lists and the joining of words.

use crate::ordinal::ordinal_suffix;
use crate::ordinal::ordinal_text;
use crate::text::and_list_text;
use crate::text::comma_list_text;
use crate::text::decimal_digits;
use crate::text::digit_char;
use crate::text::is_space;
use crate::text::join_words_text;
use vstd::prelude::*;

verus! {

/// No space is followed by another space.
pub open spec fn no_double_space(s: Seq<char>) -> bool {
    forall|i: int| 0 <= i < s.len() - 1 ==> !(#[trigger] s[i] == ' ' && s[i + 1] == ' ')
}

/// The text starts with a character that is no white space.
pub open spec fn opens(s: Seq<char>) -> bool {
    s.len() > 0 && !is_space(s[0])
}

/// The text ends with a character that is no white space.
pub open spec fn closes(s: Seq<char>) -> bool {
    s.len() > 0 && !is_space(s.last())
}

/// A text that is not empty, has no two spaces in a row and has no white
/// space at either end.
pub open spec fn phrase(s: Seq<char>) -> bool {
    no_double_space(s) && opens(s) && closes(s)
}

/// An empty text or a phrase.
pub open spec fn tidy(s: Seq<char>) -> bool {
    s.len() == 0 || phrase(s)
}

/// No character of the text is white space.
pub open spec fn spaceless(s: Seq<char>) -> bool {
    forall|i: int| 0 <= i < s.len() ==> !is_space(#[trigger] s[i])
}

/// Two texts without double spaces, put together where at most one of them
/// brings a space to the seam, have no double space. The whole opens as
/// the first text does and closes as the second does.
pub proof fn lemma_append(a: Seq<char>, b: Seq<char>)
    requires
        no_double_space(a),
        no_double_space(b),
        a.len() == 0 || b.len() == 0 || closes(a) || opens(b),
    ensures
        no_double_space(a + b),
        opens(a) ==> opens(a + b),
        closes(b) ==> closes(a + b),
        a.len() == 0 ==> a + b == b,
        b.len() == 0 ==> a + b == a,
{
    let whole = a + b;
    assert forall|i: int| 0 <= i < whole.len() - 1 implies !(#[trigger] whole[i] == ' ' && whole[i
        + 1] == ' ') by {
        if i + 1 < a.len() {
            assert(whole[i] == a[i] && whole[i + 1] == a[i + 1]);
        } else if i >= a.len() {
            assert(whole[i] == b[i - a.len()] && whole[i + 1] == b[i - a.len() + 1]);
        } else {
            assert(whole[i] == a.last() && whole[i + 1] == b[0]);
        }
    }
    if a.len() == 0 {
        assert(a + b =~= b);
    }
    if b.len() == 0 {
        assert(a + b =~= a);
    }
    if closes(b) {
        assert(whole.last() == b.last());
    }
}

/// A text without white space that is not empty is a phrase.
pub proof fn lemma_spaceless_phrase(s: Seq<char>)
    requires
        spaceless(s),
        s.len() > 0,
    ensures
        phrase(s),
{
    assert(!is_space(s[0]));
    assert(!is_space(s[s.len() - 1]));
}

/// Two texts without white space make one without white space.
pub proof fn lemma_spaceless_append(a: Seq<char>, b: Seq<char>)
    requires
        spaceless(a),
        spaceless(b),
    ensures
        spaceless(a + b),
{
    let whole = a + b;
    assert forall|i: int| 0 <= i < whole.len() implies !is_space(#[trigger] whole[i]) by {
        if i < a.len() {
            assert(whole[i] == a[i]);
        } else {
            assert(whole[i] == b[i - a.len()]);
        }
    }
}

/// A decimal numeral is not empty and holds no white space.
pub proof fn lemma_decimal_spaceless(n: nat)
    ensures
        spaceless(decimal_digits(n)),
        decimal_digits(n).len() > 0,
    decreases n,
{
    if n >= 10 {
        lemma_decimal_spaceless(n / 10);
        let front = decimal_digits(n / 10);
        let whole = front.push(digit_char(n % 10));
        assert forall|i: int| 0 <= i < whole.len() implies !is_space(#[trigger] whole[i]) by {
            if i < front.len() {
                assert(whole[i] == front[i]);
            }
        }
    }
}

/// An ordinal is not empty and holds no white space.
pub proof fn lemma_ordinal_spaceless(n: nat)
    ensures
        spaceless(ordinal_text(n)),
        ordinal_text(n).len() > 0,
{
    reveal_strlit("th");
    reveal_strlit("st");
    reveal_strlit("nd");
    reveal_strlit("rd");
    lemma_decimal_spaceless(n);
    assert(spaceless(ordinal_suffix(n)));
    lemma_spaceless_append(decimal_digits(n), ordinal_suffix(n));
}

/// Every item is a phrase.
pub open spec fn all_phrases(items: Seq<Seq<char>>) -> bool {
    forall|i: int| 0 <= i < items.len() ==> phrase(#[trigger] items[i])
}

/// Every word is tidy.
pub open spec fn all_tidy(words: Seq<Seq<char>>) -> bool {
    forall|i: int| 0 <= i < words.len() ==> tidy(#[trigger] words[i])
}

/// Two rows of tidy words make one row of tidy words.
pub proof fn lemma_all_tidy_append(a: Seq<Seq<char>>, b: Seq<Seq<char>>)
    requires
        all_tidy(a),
        all_tidy(b),
    ensures
        all_tidy(a + b),
{
    let whole = a + b;
    assert forall|i: int| 0 <= i < whole.len() implies tidy(#[trigger] whole[i]) by {
        if i < a.len() {
            assert(whole[i] == a[i]);
        } else {
            assert(whole[i] == b[i - a.len()]);
        }
    }
}

/// A comma list of phrases is a phrase.
pub proof fn lemma_comma_list_phrase(items: Seq<Seq<char>>)
    requires
        items.len() > 0,
        all_phrases(items),
    ensures
        phrase(comma_list_text(items)),
    decreases items.len(),
{
    if items.len() == 1 {
        assert(phrase(items[0]));
    } else {
        let front = items.drop_last();
        assert forall|i: int| 0 <= i < front.len() implies phrase(#[trigger] front[i]) by {
            assert(front[i] == items[i]);
        }
        lemma_comma_list_phrase(front);
        reveal_strlit(", ");
        assert(phrase(items[items.len() - 1]));
        lemma_append(comma_list_text(front), ", "@);
        lemma_append(comma_list_text(front) + ", "@, items.last());
    }
}

/// An `a, b and c` list of phrases is a phrase.
pub proof fn lemma_and_list_phrase(items: Seq<Seq<char>>)
    requires
        items.len() > 0,
        all_phrases(items),
    ensures
        phrase(and_list_text(items)),
{
    if items.len() < 2 {
        assert(phrase(items[0]));
    } else {
        let front = items.drop_last();
        assert forall|i: int| 0 <= i < front.len() implies phrase(#[trigger] front[i]) by {
            assert(front[i] == items[i]);
        }
        lemma_comma_list_phrase(front);
        reveal_strlit(" and ");
        assert(phrase(items[items.len() - 1]));
        lemma_append(comma_list_text(front), " and "@);
        lemma_append(comma_list_text(front) + " and "@, items.last());
    }
}

/// Tidy words joined by single spaces make a tidy text.
pub proof fn lemma_join_words_tidy(words: Seq<Seq<char>>)
    requires
        all_tidy(words),
    ensures
        tidy(join_words_text(words)),
    decreases words.len(),
{
    if words.len() > 0 {
        let front = words.drop_last();
        assert forall|i: int| 0 <= i < front.len() implies tidy(#[trigger] front[i]) by {
            assert(front[i] == words[i]);
        }
        lemma_join_words_tidy(front);
        let before = join_words_text(front);
        let word = words.last();
        assert(tidy(words[words.len() - 1]));
        if word.len() > 0 && before.len() > 0 {
            reveal_strlit(" ");
            lemma_append(before, " "@);
            lemma_append(before + " "@, word);
        }
    }
}

} // verus!
