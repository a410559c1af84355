//! English ordinals: `1st`, `2nd`, `3rd`, `4th`, `11th`, `21st`.

use crate::text::decimal_digits;
use inflector::InflectorNumbers;
use vstd::prelude::*;

verus! {

/// The two letters that turn the numeral of `n` into an ordinal. The teens
/// of every hundred take `th`; otherwise the last digit decides.
pub open spec fn ordinal_suffix(n: nat) -> Seq<char> {
    if 11 <= n % 100 <= 13 {
        "th"@
    } else if n % 10 == 1 {
        "st"@
    } else if n % 10 == 2 {
        "nd"@
    } else if n % 10 == 3 {
        "rd"@
    } else {
        "th"@
    }
}

/// The ordinal of `n`: its decimal numeral followed by its suffix.
pub open spec fn ordinal_text(n: nat) -> Seq<char> {
    decimal_digits(n) + ordinal_suffix(n)
}

/// Calls `inflector::InflectorNumbers::ordinalize` on a `u32`.
///
/// Trusted: the result is the decimal numeral of `n` followed by two
/// letters. The crate appends `th` where the tens digit is 1, and otherwise
/// `st`, `nd`, `rd` or `th` as the last digit is 1, 2, 3 or anything else.
/// Since a last digit other than 1, 2 and 3 takes `th` anyway, that is
/// `ordinal_suffix`.
#[verifier::external_body]
pub(crate) fn ordinalize(n: u32) -> (s: String)
    ensures
        s@ == ordinal_text(n as nat),
{
    n.ordinalize()
}

} // verus!
