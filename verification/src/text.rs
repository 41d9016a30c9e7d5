//! Rendering numbers into the text of error messages.

use vstd::prelude::*;

verus! {

use vstd::string::StringExecFns;

/// The decimal digit character for `d`.
pub open spec fn decimal_digit(d: int) -> char {
    if d == 0 {
        '0'
    } else if d == 1 {
        '1'
    } else if d == 2 {
        '2'
    } else if d == 3 {
        '3'
    } else if d == 4 {
        '4'
    } else if d == 5 {
        '5'
    } else if d == 6 {
        '6'
    } else if d == 7 {
        '7'
    } else if d == 8 {
        '8'
    } else {
        '9'
    }
}

/// The decimal rendering of a non-negative integer, most significant digit
/// first.
pub open spec fn decimal_of(n: int) -> Seq<char>
    recommends
        n >= 0,
    decreases n,
{
    if n < 10 {
        seq![decimal_digit(n)]
    } else {
        decimal_of(n / 10).push(decimal_digit(n % 10))
    }
}

/// The decimal rendering of an integer: a minus sign in front of the
/// magnitude for negative values.
pub open spec fn decimal_of_int(n: int) -> Seq<char> {
    if n >= 0 {
        decimal_of(n)
    } else {
        seq!['-'] + decimal_of(-n)
    }
}

/// The decimal digit character for `d`, in executable code.
fn digit_str(d: u64) -> (r: &'static str)
    requires
        d < 10,
    ensures
        r@ == seq![decimal_digit(d as int)],
{
    proof {
        reveal_strlit("0");
        reveal_strlit("1");
        reveal_strlit("2");
        reveal_strlit("3");
        reveal_strlit("4");
        reveal_strlit("5");
        reveal_strlit("6");
        reveal_strlit("7");
        reveal_strlit("8");
        reveal_strlit("9");
    }
    match d {
        0 => "0",
        1 => "1",
        2 => "2",
        3 => "3",
        4 => "4",
        5 => "5",
        6 => "6",
        7 => "7",
        8 => "8",
        _ => "9",
    }
}

/// Render a non-negative integer in decimal.
pub fn format_u64(n: u64) -> (s: String)
    ensures
        s@ == decimal_of(n as int),
    decreases n,
{
    if n < 10 {
        digit_str(n).to_owned()
    } else {
        proof {
            assert(n / 10 < n) by (nonlinear_arith)
                requires
                    n >= 10,
            ;
        }
        let mut s = format_u64(n / 10);
        s.append(digit_str(n % 10));
        proof {
            assert(decimal_of((n / 10) as int) + seq![decimal_digit((n % 10) as int)] == decimal_of(
                (n / 10) as int,
            ).push(decimal_digit((n % 10) as int)));
            assert(n as int / 10 == (n / 10) as int);
            assert(n as int % 10 == (n % 10) as int);
        }
        s
    }
}

/// Render a `usize` in decimal.
pub fn format_usize(n: usize) -> (s: String)
    ensures
        s@ == decimal_of(n as int),
{
    format_u64(n as u64)
}

/// Render a wide non-negative integer in decimal.
pub fn format_u128(n: u128) -> (s: String)
    ensures
        s@ == decimal_of(n as int),
    decreases n,
{
    if n < 10 {
        digit_str(n as u64).to_owned()
    } else {
        proof {
            assert(n / 10 < n) by (nonlinear_arith)
                requires
                    n >= 10,
            ;
        }
        let mut s = format_u128(n / 10);
        s.append(digit_str((n % 10) as u64));
        proof {
            assert(decimal_of((n / 10) as int) + seq![decimal_digit((n % 10) as int)] == decimal_of(
                (n / 10) as int,
            ).push(decimal_digit((n % 10) as int)));
            assert(n as int / 10 == (n / 10) as int);
            assert(n as int % 10 == (n % 10) as int);
        }
        s
    }
}

/// Render a signed integer in decimal.
pub fn format_i64(n: i64) -> (s: String)
    ensures
        s@ == decimal_of_int(n as int),
{
    if n >= 0 {
        format_u64(n as u64)
    } else {
        let magnitude: u64 = if n == i64::MIN {
            9223372036854775808u64
        } else {
            (-n) as u64
        };
        let mut s: String = "-".to_owned();
        proof {
            reveal_strlit("-");
            assert("-"@ == seq!['-']);
            assert(magnitude as int == -(n as int));
        }
        s.append(format_u64(magnitude).as_str());
        s
    }
}

} // verus!
