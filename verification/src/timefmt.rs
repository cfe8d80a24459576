//! Rendering a second count as the `minutes:seconds` text of the status
//! line.
//!
//! Negative counts are clamped to zero; both fields are zero-padded to two
//! digits, and the minutes field simply grows wider when a session longer
//! than 99 minutes calls for it.

use vstd::prelude::*;
use vstd::string::StrSliceExecFns;
use vstd::string::StringExecFns;

verus! {

/// The character for one decimal digit.
pub open spec fn digit_char(d: int) -> char {
    if d == 0 {
        '0'
    } else if d == 1 {
        '1'
    } else if d == 2 {
        '2'
    } else if d == 3 {
        '3'
    } else if d == 4 {
        '4'
    } else if d == 5 {
        '5'
    } else if d == 6 {
        '6'
    } else if d == 7 {
        '7'
    } else if d == 8 {
        '8'
    } else {
        '9'
    }
}

/// The decimal rendering of a number, most significant digit first, without
/// leading zeros.
pub open spec fn decimal_digits(n: nat) -> Seq<char>
    decreases n,
{
    if n < 10 {
        seq![digit_char(n as int)]
    } else {
        decimal_digits(n / 10) + seq![digit_char((n % 10) as int)]
    }
}

/// A decimal field of at least two characters: a single digit gets a leading
/// zero, anything wider stands as it is.
pub open spec fn zero_padded(n: nat) -> Seq<char> {
    if n < 10 {
        seq!['0', digit_char(n as int)]
    } else {
        decimal_digits(n)
    }
}

/// The `minutes:seconds` rendering of a signed second count, clamped below
/// at zero.
pub open spec fn mm_ss(total_seconds: int) -> Seq<char> {
    let secs = (if total_seconds < 0 {
        0
    } else {
        total_seconds
    }) as nat;
    zero_padded(secs / 60) + seq![':'] + zero_padded(secs % 60)
}

/// The one-character string of a decimal digit.
fn digit_str(d: u64) -> (r: &'static str)
    requires
        d < 10,
    ensures
        r@ =~= seq![digit_char(d as int)],
        r.is_ascii(),
{
    let digits = "0123456789";
    proof {
        reveal_strlit("0123456789");
    }
    let r = digits.substring_ascii(d as usize, d as usize + 1);
    proof {
        assert(r@ =~= seq![digit_char(d as int)]);
    }
    r
}

/// The decimal rendering of a number, as [`decimal_digits`] states it.
pub fn decimal_string(n: u64) -> (r: String)
    ensures
        r@ == decimal_digits(n as nat),
    decreases n,
{
    if n < 10 {
        String::from_str(digit_str(n))
    } else {
        let q = n / 10;
        let d = n % 10;
        proof {
            assert(n / 10 < n) by (nonlinear_arith)
                requires
                    10 <= n,
            ;
            assert(n % 10 < 10) by (nonlinear_arith);
        }
        let mut s = decimal_string(q);
        s.append(digit_str(d));
        proof {
            assert(s@ =~= decimal_digits(n as nat));
        }
        s
    }
}

/// Renders a signed second count as `minutes:seconds`, exactly as the spec
/// function [`mm_ss`] states it: clamped below at zero, both fields
/// zero-padded to two digits.
pub fn format_mm_ss(total_seconds: i64) -> (r: String)
    ensures
        r@ == mm_ss(total_seconds as int),
{
    let secs: u64 = if total_seconds < 0 {
        0
    } else {
        total_seconds as u64
    };
    let minutes = secs / 60;
    let seconds = secs % 60;
    proof {
        assert(secs % 60 < 60) by (nonlinear_arith);
        reveal_strlit("0");
        reveal_strlit(":");
    }
    let mut r = if minutes < 10 {
        let mut m = String::from_str("0");
        m.append(digit_str(minutes));
        m
    } else {
        decimal_string(minutes)
    };
    r.append(":");
    if seconds < 10 {
        r.append("0");
        r.append(digit_str(seconds));
    } else {
        proof {
            assert(seconds / 10 < 10) by (nonlinear_arith)
                requires
                    seconds < 60,
            ;
            assert(seconds % 10 < 10) by (nonlinear_arith);
            assert(decimal_digits(seconds as nat) == decimal_digits(
                (seconds as nat) / 10,
            ) + seq![digit_char(((seconds as nat) % 10) as int)]);
        }
        r.append(digit_str(seconds / 10));
        r.append(digit_str(seconds % 10));
    }
    proof {
        assert(r@ =~= mm_ss(total_seconds as int));
    }
    r
}

} // verus!
