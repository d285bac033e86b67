use vstd::prelude::*;

verus! {

/// The error returned when a text names no value of a status enumeration.
#[derive(Clone, Copy, Debug, PartialEq, Eq, Structural)]
pub struct UnknownVariant;

/// Whether two strings hold the same characters.
pub fn same_text(a: &str, b: &str) -> (r: bool)
    ensures
        r == (a@ == b@),
{
    a.to_owned() == b.to_owned()
}

} // verus!

verus! {

/// The decimal digits of `n`, without leading zeros (`"0"` for zero).
pub open spec fn decimal_text(n: nat) -> Seq<char>
    decreases n,
{
    if n < 10 {
        seq![((n + 48) as u8) as char]
    } else {
        decimal_text(n / 10).push((((n % 10) + 48) as u8) as char)
    }
}

/// The one-character text of a decimal digit.
fn digit_str(d: u64) -> (s: &'static str)
    requires
        d < 10,
    ensures
        s@ == seq![((d + 48) as u8) as char],
{
    if d == 0 {
        proof {
            reveal_strlit("0");
        }
        return "0";
    }
    if d == 1 {
        proof {
            reveal_strlit("1");
        }
        return "1";
    }
    if d == 2 {
        proof {
            reveal_strlit("2");
        }
        return "2";
    }
    if d == 3 {
        proof {
            reveal_strlit("3");
        }
        return "3";
    }
    if d == 4 {
        proof {
            reveal_strlit("4");
        }
        return "4";
    }
    if d == 5 {
        proof {
            reveal_strlit("5");
        }
        return "5";
    }
    if d == 6 {
        proof {
            reveal_strlit("6");
        }
        return "6";
    }
    if d == 7 {
        proof {
            reveal_strlit("7");
        }
        return "7";
    }
    if d == 8 {
        proof {
            reveal_strlit("8");
        }
        return "8";
    }
    proof {
        reveal_strlit("9");
    }
    "9"
}

/// The decimal form of `n`.
pub fn decimal_string(n: u64) -> (s: String)
    ensures
        s@ == decimal_text(n as nat),
    decreases n,
{
    let d = digit_str(n % 10);
    if n < 10 {
        d.to_owned()
    } else {
        decimal_string(n / 10).concat(d)
    }
}

/// The decimal form of a signed number: a minus sign before the digits of
/// a negative one.
pub open spec fn signed_decimal_text(n: int) -> Seq<char> {
    if n < 0 {
        seq!['-'] + decimal_text((-n) as nat)
    } else {
        decimal_text(n as nat)
    }
}

/// The decimal form of `n`.
pub fn signed_decimal_string(n: i32) -> (s: String)
    ensures
        s@ == signed_decimal_text(n as int),
{
    if n < 0 {
        let magnitude: u64 = (-(n as i64)) as u64;
        let digits = decimal_string(magnitude);
        proof {
            reveal_strlit("-");
        }
        String::from_str("-").concat(digits.as_str())
    } else {
        decimal_string(n as u64)
    }
}

} // verus!
