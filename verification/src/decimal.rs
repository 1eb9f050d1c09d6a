//! Decimal numerals, rendered verified: the creation response carries the
//! new row's id as a bare decimal string, so the numeral itself is part of
//! the contract.

use vstd::prelude::*;
use vstd::string::StringExecFns;

verus! {

/// The character of one decimal digit.
pub open spec fn digit_char(d: int) -> char
    recommends
        0 <= d < 10,
{
    if d == 0 {
        '0'
    } else if d == 1 {
        '1'
    } else if d == 2 {
        '2'
    } else if d == 3 {
        '3'
    } else if d == 4 {
        '4'
    } else if d == 5 {
        '5'
    } else if d == 6 {
        '6'
    } else if d == 7 {
        '7'
    } else if d == 8 {
        '8'
    } else {
        '9'
    }
}

/// The usual decimal numeral of a nonnegative number: most significant
/// digit first, no leading zeros.
pub open spec fn dec_str(n: int) -> Seq<char>
    recommends
        n >= 0,
    decreases n,
{
    if n < 10 {
        seq![digit_char(n)]
    } else {
        dec_str(n / 10).push(digit_char(n % 10))
    }
}

/// The numeral the peeled-off digits spell, last peeled first.
spec fn digits_rev(ds: Seq<u64>) -> Seq<char> {
    Seq::new(ds.len(), |i: int| digit_char(ds[ds.len() - 1 - i] as int))
}

/// One digit as a string slice.
fn digit_str(d: u64) -> (s: &'static str)
    requires
        d < 10,
    ensures
        s@ == seq![digit_char(d as int)],
{
    let s: &'static str = if d == 0 {
        "0"
    } else if d == 1 {
        "1"
    } else if d == 2 {
        "2"
    } else if d == 3 {
        "3"
    } else if d == 4 {
        "4"
    } else if d == 5 {
        "5"
    } else if d == 6 {
        "6"
    } else if d == 7 {
        "7"
    } else if d == 8 {
        "8"
    } else {
        "9"
    };
    proof {
        reveal_strlit("0");
        reveal_strlit("1");
        reveal_strlit("2");
        reveal_strlit("3");
        reveal_strlit("4");
        reveal_strlit("5");
        reveal_strlit("6");
        reveal_strlit("7");
        reveal_strlit("8");
        reveal_strlit("9");
        assert(s@ =~= seq![digit_char(d as int)]);
    }
    s
}

/// The decimal numeral of `n`.
pub fn decimal_string(n: u64) -> (s: String)
    ensures
        s@ == dec_str(n as int),
{
    let mut rest: u64 = n;
    let mut low_digits: Vec<u64> = Vec::new();
    while rest >= 10
        invariant
            forall|i: int| 0 <= i < low_digits@.len() ==> #[trigger] low_digits@[i] < 10,
            dec_str(n as int) == dec_str(rest as int) + digits_rev(low_digits@),
        decreases rest,
    {
        let ghost prev = low_digits@;
        let ghost r0 = rest as int;
        let d = rest % 10;
        low_digits.push(d);
        rest = rest / 10;
        proof {
            assert(dec_str(r0) == dec_str(r0 / 10).push(digit_char(r0 % 10)));
            assert(digits_rev(prev.push(d)) =~= seq![digit_char(r0 % 10)] + digits_rev(prev));
            assert(dec_str(r0 / 10) + digits_rev(prev.push(d)) =~= dec_str(r0) + digits_rev(prev));
        }
    }
    let mut s = String::new();
    s.append(digit_str(rest));
    proof {
        assert(s@ =~= dec_str(rest as int) + digits_rev(low_digits@).take(0));
    }
    let total = low_digits.len();
    let mut k: usize = total;
    while k > 0
        invariant
            k <= total,
            total == low_digits@.len(),
            forall|i: int| 0 <= i < low_digits@.len() ==> #[trigger] low_digits@[i] < 10,
            s@ == dec_str(rest as int) + digits_rev(low_digits@).take(total - k),
        decreases k,
    {
        k = k - 1;
        s.append(digit_str(low_digits[k]));
        proof {
            assert(digits_rev(low_digits@)[total - k - 1] == digit_char(
                low_digits@[k as int] as int,
            ));
            assert(s@ =~= dec_str(rest as int) + digits_rev(low_digits@).take(total - k));
        }
    }
    proof {
        assert(digits_rev(low_digits@).take(total as int) =~= digits_rev(low_digits@));
    }
    s
}

/// The decimal numeral of a possibly negative number: a minus sign and the
/// numeral of its magnitude.
pub fn decimal_string_i32(n: i32) -> (s: String)
    ensures
        n >= 0 ==> s@ == dec_str(n as int),
        n < 0 ==> s@ == seq!['-'] + dec_str(0 - n as int),
{
    if n >= 0 {
        decimal_string(n as u64)
    } else {
        let mag: u64 = (-(n as i64)) as u64;
        let mut s = String::from_str("-");
        let digits = decimal_string(mag);
        s.append(digits.as_str());
        proof {
            reveal_strlit("-");
            assert(s@ =~= seq!['-'] + dec_str(0 - n as int));
        }
        s
    }
}

} // verus!
