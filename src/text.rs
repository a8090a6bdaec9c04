//! Decimal numbers as the player reads them, with thousands separated by
//! commas.

use thousands::Separable;
use vstd::prelude::*;

verus! {

/// The character of a decimal digit.
pub open spec fn digit_char(d: nat) -> char {
    seq!['0', '1', '2', '3', '4', '5', '6', '7', '8', '9'][d as int]
}

/// The decimal digits of `n`, without leading zeros.
pub open spec fn decimal(n: nat) -> Seq<char>
    decreases n,
{
    if n < 10 {
        seq![digit_char(n)]
    } else {
        decimal(n / 10).push(digit_char(n % 10))
    }
}

/// Three decimal digits of `n < 1000`, with leading zeros.
pub open spec fn three_digits(n: nat) -> Seq<char> {
    seq![digit_char(n / 100), digit_char(n / 10 % 10), digit_char(n % 10)]
}

/// The decimal digits of `n` with a comma every three digits from the right.
pub open spec fn with_commas(n: nat) -> Seq<char>
    decreases n,
{
    if n < 1000 {
        decimal(n)
    } else {
        with_commas(n / 1000) + seq![','] + three_digits(n % 1000)
    }
}

/// Relies on `thousands::Separable::separate_with_commas`, which writes the
/// number with `Display` and puts a comma every three digits from the right.
#[verifier::external_body]
pub(crate) fn separate_with_commas(n: u32) -> (r: String)
    ensures
        r@ == with_commas(n as nat),
{
    n.separate_with_commas()
}

} // verus!
