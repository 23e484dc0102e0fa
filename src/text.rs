//! Decimal rendering of numbers.
use vstd::prelude::*;
use vstd::string::StringExecFns;

verus! {

/// The character of decimal digit `d`.
pub open spec fn digit_char(d: nat) -> char {
    seq!['0', '1', '2', '3', '4', '5', '6', '7', '8', '9'][d as int]
}

/// The decimal digits of `n`, without leading zeros.
pub open spec fn decimal(n: nat) -> Seq<char>
    decreases n,
{
    if n < 10 {
        seq![digit_char(n)]
    } else {
        decimal(n / 10).push(digit_char(n % 10))
    }
}

/// The decimal digits of `n`, with a leading zero below ten.
pub open spec fn two_digits(n: nat) -> Seq<char> {
    if n < 10 {
        seq!['0'] + decimal(n)
    } else {
        decimal(n)
    }
}

/// A count of hundredths as units, a point and two decimals, with a
/// minus sign when `negative`.
pub open spec fn centi(negative: bool, magnitude: nat) -> Seq<char> {
    let sign = if negative {
        seq!['-']
    } else {
        seq![]
    };
    sign + decimal(magnitude / 100) + seq!['.'] + two_digits(magnitude % 100)
}

/// Relies on the `Display` of `u32`: its decimal digits, without sign or
/// leading zeros.
#[verifier::external_body]
fn u32_text(n: u32) -> (r: String)
    ensures
        r@ == decimal(n as nat),
{
    n.to_string()
}

/// Decimal text of `n`.
pub fn decimal_text(n: u32) -> (r: String)
    ensures
        r@ == decimal(n as nat),
{
    u32_text(n)
}

/// Decimal text of `n`, padded to two digits.
pub fn two_digit_text(n: u32) -> (r: String)
    ensures
        r@ == two_digits(n as nat),
{
    let digits = u32_text(n);
    if n < 10 {
        let mut s = String::from_str("0");
        s.append(digits.as_str());
        proof {
            reveal_strlit("0");
            assert(seq!['0'] =~= "0"@);
        }
        s
    } else {
        digits
    }
}

/// Text of a count of hundredths: units, a point and two decimals.
pub fn centi_text(negative: bool, magnitude: u32) -> (r: String)
    ensures
        r@ == centi(negative, magnitude as nat),
{
    let mut s = if negative {
        String::from_str("-")
    } else {
        String::new()
    };
    let units = u32_text(magnitude / 100);
    let hundredths = two_digit_text(magnitude % 100);
    s.append(units.as_str());
    s.append(".");
    s.append(hundredths.as_str());
    proof {
        reveal_strlit("-");
        reveal_strlit(".");
        assert(seq!['-'] =~= "-"@);
        assert(seq!['.'] =~= "."@);
        assert(s@ =~= centi(negative, magnitude as nat));
    }
    s
}

} // verus!
