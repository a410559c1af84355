//! Character-level building blocks: white space, decimal numerals, and the
//! three ways in which pieces of text are joined.

use vstd::prelude::*;

verus! {

/// White space, as Unicode defines it.
pub open spec fn is_space(c: char) -> bool {
    let code = c as u32;
    ||| 0x09 <= code <= 0x0D
    ||| code == 0x20
    ||| code == 0x85
    ||| code == 0xA0
    ||| code == 0x1680
    ||| 0x2000 <= code <= 0x200A
    ||| code == 0x2028
    ||| code == 0x2029
    ||| code == 0x202F
    ||| code == 0x205F
    ||| code == 0x3000
}

/// Tells whether a character is white space.
pub fn is_whitespace(c: char) -> (yes: bool)
    ensures
        yes == is_space(c),
{
    let code: u32 = c as u32;
    (0x09 <= code && code <= 0x0D) || code == 0x20 || code == 0x85 || code == 0xA0 || code
        == 0x1680 || (0x2000 <= code && code <= 0x200A) || code == 0x2028 || code == 0x2029
        || code == 0x202F || code == 0x205F || code == 0x3000
}

/// The character that writes the digit `d`.
pub open spec fn digit_char(d: nat) -> char
    recommends
        d < 10,
{
    if d == 0 {
        '0'
    } else if d == 1 {
        '1'
    } else if d == 2 {
        '2'
    } else if d == 3 {
        '3'
    } else if d == 4 {
        '4'
    } else if d == 5 {
        '5'
    } else if d == 6 {
        '6'
    } else if d == 7 {
        '7'
    } else if d == 8 {
        '8'
    } else {
        '9'
    }
}

/// The decimal numeral of `n`: most significant digit first, no leading
/// zero except for `0` itself.
pub open spec fn decimal_digits(n: nat) -> Seq<char>
    decreases n,
{
    if n < 10 {
        seq![digit_char(n)]
    } else {
        decimal_digits(n / 10).push(digit_char(n % 10))
    }
}

/// The one-character string of a digit.
fn digit_str(d: u64) -> (s: &'static str)
    requires
        d < 10,
    ensures
        s@ == seq![digit_char(d as nat)],
{
    proof {
        reveal_strlit("0");
        reveal_strlit("1");
        reveal_strlit("2");
        reveal_strlit("3");
        reveal_strlit("4");
        reveal_strlit("5");
        reveal_strlit("6");
        reveal_strlit("7");
        reveal_strlit("8");
        reveal_strlit("9");
    }
    let s: &'static str = if d == 0 {
        "0"
    } else if d == 1 {
        "1"
    } else if d == 2 {
        "2"
    } else if d == 3 {
        "3"
    } else if d == 4 {
        "4"
    } else if d == 5 {
        "5"
    } else if d == 6 {
        "6"
    } else if d == 7 {
        "7"
    } else if d == 8 {
        "8"
    } else {
        "9"
    };
    assert(s@ =~= seq![digit_char(d as nat)]);
    s
}

/// Writes `n` in decimal.
pub fn decimal(n: u64) -> (s: String)
    ensures
        s@ == decimal_digits(n as nat),
    decreases n,
{
    if n < 10 {
        String::from_str(digit_str(n))
    } else {
        let mut s: String = decimal(n / 10);
        s.append(digit_str(n % 10));
        assert(s@ =~= decimal_digits(n as nat));
        s
    }
}

/// The texts of a list of strings, in order.
pub open spec fn texts(items: Seq<String>) -> Seq<Seq<char>> {
    Seq::new(items.len(), |i: int| items[i]@)
}

/// Pushing a string onto a list pushes its text onto the list's texts.
pub proof fn lemma_texts_push(items: Seq<String>, item: String)
    ensures
        texts(items.push(item)) == texts(items).push(item@),
{
    assert(texts(items.push(item)) =~= texts(items).push(item@));
}

/// `a, b, c`: the items in order, a comma and a space between neighbours.
pub open spec fn comma_list_text(items: Seq<Seq<char>>) -> Seq<char>
    decreases items.len(),
{
    if items.len() == 0 {
        Seq::empty()
    } else if items.len() == 1 {
        items[0]
    } else {
        comma_list_text(items.drop_last()) + ", "@ + items.last()
    }
}

/// `a, b and c`: a comma list of all items but the last, then ` and ` and
/// the last item. A single item stands alone.
pub open spec fn and_list_text(items: Seq<Seq<char>>) -> Seq<char>
    recommends
        items.len() > 0,
{
    if items.len() < 2 {
        items[0]
    } else {
        comma_list_text(items.drop_last()) + " and "@ + items.last()
    }
}

/// The words in order with one space between neighbours, empty words left
/// out.
pub open spec fn join_words_text(words: Seq<Seq<char>>) -> Seq<char>
    decreases words.len(),
{
    if words.len() == 0 {
        Seq::empty()
    } else {
        let before = join_words_text(words.drop_last());
        let word = words.last();
        if word.len() == 0 {
            before
        } else if before.len() == 0 {
            word
        } else {
            before + " "@ + word
        }
    }
}

/// Joins the items as `a, b and c`.
pub fn and_list(items: &Vec<String>) -> (text: String)
    requires
        items.len() > 0,
    ensures
        text@ == and_list_text(texts(items@)),
{
    let n: usize = items.len();
    let ghost all: Seq<Seq<char>> = texts(items@);
    if n < 2 {
        return items[0].clone();
    }
    let mut text: String = String::new();
    let mut i: usize = 0;
    while i + 1 < n
        invariant
            n == items.len(),
            n >= 2,
            i + 1 <= n,
            all == texts(items@),
            text@ == comma_list_text(all.take(i as int)),
        decreases n - i,
    {
        if i > 0 {
            text.append(", ");
        }
        text.append(items[i].as_str());
        proof {
            let next = all.take(i + 1);
            assert(next.drop_last() =~= all.take(i as int));
            assert(next.last() == items[i as int]@);
            if i == 0 {
                assert(text@ =~= next[0]);
            }
        }
        i += 1;
    }
    text.append(" and ");
    text.append(items[n - 1].as_str());
    proof {
        assert(all.take(n - 1) =~= all.drop_last());
    }
    text
}

/// Joins the non-empty words with single spaces.
pub fn join_words(words: &Vec<String>) -> (text: String)
    ensures
        text@ == join_words_text(texts(words@)),
{
    let n: usize = words.len();
    let ghost all: Seq<Seq<char>> = texts(words@);
    let mut text: String = String::new();
    let mut i: usize = 0;
    while i < n
        invariant
            n == words.len(),
            i <= n,
            all == texts(words@),
            text@ == join_words_text(all.take(i as int)),
        decreases n - i,
    {
        let word: &str = words[i].as_str();
        proof {
            let next = all.take(i + 1);
            assert(next.drop_last() =~= all.take(i as int));
            assert(next.last() == words[i as int]@);
        }
        if !word.is_empty() {
            if !text.as_str().is_empty() {
                text.append(" ");
            }
            text.append(word);
        }
        i += 1;
    }
    proof {
        assert(all.take(n as int) =~= all);
    }
    text
}

} // verus!
