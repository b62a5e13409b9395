//! The tail of the decision policy: once the scoring step has fixed the
//! label and the confidence (as a whole number of tenths of a percent),
//! this module renders the "LABEL|PERCENTAGE" wire string, with the
//! percentage carrying exactly one decimal digit.

use vstd::prelude::*;
use vstd::string::*;

verus! {

/// The character for a single decimal digit.
pub open spec fn digit_char(d: int) -> char {
    if d == 0 {
        '0'
    } else if d == 1 {
        '1'
    } else if d == 2 {
        '2'
    } else if d == 3 {
        '3'
    } else if d == 4 {
        '4'
    } else if d == 5 {
        '5'
    } else if d == 6 {
        '6'
    } else if d == 7 {
        '7'
    } else if d == 8 {
        '8'
    } else {
        '9'
    }
}

/// The decimal rendering of a whole percentage in 0..=100, without
/// leading zeros.
pub open spec fn whole_chars(n: int) -> Seq<char> {
    if n >= 100 {
        seq!['1', '0', '0']
    } else if n >= 10 {
        seq![digit_char(n / 10), digit_char(n % 10)]
    } else {
        seq![digit_char(n)]
    }
}

/// The rendering of a percentage given in tenths (0..=1000), with exactly
/// one decimal digit: 182 tenths render as "18.2".
pub open spec fn percent_chars(tenths: int) -> Seq<char> {
    whole_chars(tenths / 10) + seq!['.', digit_char(tenths % 10)]
}

/// The full wire string for a successful call: the label chosen by the
/// threshold rule, a separator bar, and the percentage.
pub open spec fn decision_chars(claim: bool, tenths: int) -> Seq<char> {
    (if claim {
        "CLAIM|"@
    } else {
        "IGNORE|"@
    }) + percent_chars(tenths)
}

/// A one-character string for a single decimal digit.
fn digit_str(d: u32) -> (r: &'static str)
    requires
        d < 10,
    ensures
        r@ =~= seq![digit_char(d as int)],
{
    proof {
        reveal_strlit("0");
        reveal_strlit("1");
        reveal_strlit("2");
        reveal_strlit("3");
        reveal_strlit("4");
        reveal_strlit("5");
        reveal_strlit("6");
        reveal_strlit("7");
        reveal_strlit("8");
        reveal_strlit("9");
    }
    match d {
        0 => "0",
        1 => "1",
        2 => "2",
        3 => "3",
        4 => "4",
        5 => "5",
        6 => "6",
        7 => "7",
        8 => "8",
        _ => "9",
    }
}

/// Renders the final decision string, e.g. `CLAIM|87.3` or `IGNORE|18.2`.
/// The confidence comes in as tenths of a percent, so 0..=1000 covers
/// 0.0% to 100.0%.
pub fn render_decision(claim: bool, tenths: u32) -> (r: String)
    requires
        tenths <= 1000,
    ensures
        r@ == decision_chars(claim, tenths as int),
{
    let mut s = if claim {
        String::from_str("CLAIM|")
    } else {
        String::from_str("IGNORE|")
    };
    let whole = tenths / 10;
    let frac = tenths % 10;
    if whole >= 100 {
        proof {
            reveal_strlit("100");
            reveal_strlit("1");
            reveal_strlit("0");
        }
        s.append("100");
        assert("100"@ =~= whole_chars(whole as int));
    } else if whole >= 10 {
        s.append(digit_str(whole / 10));
        s.append(digit_str(whole % 10));
        assert(seq![digit_char(whole as int / 10)] + seq![digit_char(whole as int % 10)]
            =~= whole_chars(whole as int));
    } else {
        s.append(digit_str(whole));
    }
    proof {
        reveal_strlit(".");
    }
    s.append(".");
    s.append(digit_str(frac));
    proof {
        assert("."@ =~= seq!['.']);
        assert(s@ =~= decision_chars(claim, tenths as int));
    }
    s
}

} // verus!

