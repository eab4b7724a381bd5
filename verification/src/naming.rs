//! Receipt naming: one file per proved chunk, named by its cycle range.
//!
//! The convention is `proofs/proofs_<begin_mcycle>_<end_mcycle>.bin`, with
//! both cycle counts rendered in decimal.

use vstd::prelude::*;
use vstd::string::{StrSliceExecFns, StringExecFns};

verus! {

/// The decimal digit character for one digit value.
pub open spec fn spec_digit_char(d: int) -> char {
    if d == 0 {
        '0'
    } else if d == 1 {
        '1'
    } else if d == 2 {
        '2'
    } else if d == 3 {
        '3'
    } else if d == 4 {
        '4'
    } else if d == 5 {
        '5'
    } else if d == 6 {
        '6'
    } else if d == 7 {
        '7'
    } else if d == 8 {
        '8'
    } else {
        '9'
    }
}

/// The decimal rendering of a non-negative number, most significant digit
/// first, with no leading zero except for the number zero itself.
pub open spec fn spec_dec(n: int) -> Seq<char>
    recommends
        n >= 0,
    decreases n,
{
    if n < 10 {
        seq![spec_digit_char(n)]
    } else {
        spec_dec(n / 10).push(spec_digit_char(n % 10))
    }
}

/// The receipt path for the chunk that ran from `begin_mcycle` to
/// `end_mcycle`.
pub open spec fn spec_receipt_filename(begin_mcycle: u64, end_mcycle: u64) -> Seq<char> {
    "proofs/proofs_"@ + spec_dec(begin_mcycle as int) + "_"@ + spec_dec(end_mcycle as int)
        + ".bin"@
}

/// The one-character string for a digit value.
fn digit_str(d: u64) -> (s: &'static str)
    requires
        d < 10,
    ensures
        s@ == seq![spec_digit_char(d as int)],
{
    if d == 0 {
        proof {
            reveal_strlit("0");
            assert("0"@ =~= seq![spec_digit_char(0)]);
        }
        "0"
    } else if d == 1 {
        proof {
            reveal_strlit("1");
            assert("1"@ =~= seq![spec_digit_char(1)]);
        }
        "1"
    } else if d == 2 {
        proof {
            reveal_strlit("2");
            assert("2"@ =~= seq![spec_digit_char(2)]);
        }
        "2"
    } else if d == 3 {
        proof {
            reveal_strlit("3");
            assert("3"@ =~= seq![spec_digit_char(3)]);
        }
        "3"
    } else if d == 4 {
        proof {
            reveal_strlit("4");
            assert("4"@ =~= seq![spec_digit_char(4)]);
        }
        "4"
    } else if d == 5 {
        proof {
            reveal_strlit("5");
            assert("5"@ =~= seq![spec_digit_char(5)]);
        }
        "5"
    } else if d == 6 {
        proof {
            reveal_strlit("6");
            assert("6"@ =~= seq![spec_digit_char(6)]);
        }
        "6"
    } else if d == 7 {
        proof {
            reveal_strlit("7");
            assert("7"@ =~= seq![spec_digit_char(7)]);
        }
        "7"
    } else if d == 8 {
        proof {
            reveal_strlit("8");
            assert("8"@ =~= seq![spec_digit_char(8)]);
        }
        "8"
    } else {
        proof {
            reveal_strlit("9");
            assert("9"@ =~= seq![spec_digit_char(d as int)]);
        }
        "9"
    }
}

/// Render a cycle count in decimal.
pub fn u64_to_dec(n: u64) -> (s: String)
    ensures
        s@ == spec_dec(n as int),
    decreases n,
{
    if n < 10 {
        String::from_str(digit_str(n))
    } else {
        let mut s = u64_to_dec(n / 10);
        s.append(digit_str(n % 10));
        proof {
            assert(s@ =~= spec_dec((n / 10) as int).push(spec_digit_char((n % 10) as int)));
        }
        s
    }
}

/// Build the receipt path for one proved chunk.
pub fn receipt_filename(begin_mcycle: u64, end_mcycle: u64) -> (s: String)
    ensures
        s@ == spec_receipt_filename(begin_mcycle, end_mcycle),
{
    let mut s = String::from_str("proofs/proofs_");
    let begin_dec = u64_to_dec(begin_mcycle);
    s.append(begin_dec.as_str());
    s.append("_");
    let end_dec = u64_to_dec(end_mcycle);
    s.append(end_dec.as_str());
    s.append(".bin");
    proof {
        assert(s@ =~= spec_receipt_filename(begin_mcycle, end_mcycle));
    }
    s
}

} // verus!
