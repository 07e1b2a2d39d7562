//! Canonical decimal rendering of the numbers that appear in argument
//! lists: plain integers, millisecond timestamps rendered as seconds, and
//! volume factors given in percent. The renderings match how the values
//! would print as shortest decimals: no trailing fractional zeros and no
//! fraction at all for whole values.

use vstd::prelude::*;

verus! {

/// The character for a single decimal digit.
pub open spec fn spec_digit_char(d: nat) -> char {
    if d == 0 {
        '0'
    } else if d == 1 {
        '1'
    } else if d == 2 {
        '2'
    } else if d == 3 {
        '3'
    } else if d == 4 {
        '4'
    } else if d == 5 {
        '5'
    } else if d == 6 {
        '6'
    } else if d == 7 {
        '7'
    } else if d == 8 {
        '8'
    } else {
        '9'
    }
}

/// True of the ten decimal digit characters.
pub open spec fn is_digit_char(c: char) -> bool {
    c == '0' || c == '1' || c == '2' || c == '3' || c == '4' || c == '5' || c == '6' || c == '7'
        || c == '8' || c == '9'
}

/// The usual base-ten rendering of a natural number, without sign,
/// padding or separators.
pub open spec fn dec_str(n: nat) -> Seq<char>
    decreases n,
{
    if n < 10 {
        seq![spec_digit_char(n)]
    } else {
        dec_str(n / 10) + seq![spec_digit_char(n % 10)]
    }
}

/// The fractional digits for a millisecond remainder in 1..=999: three
/// digits with trailing zeros dropped, so 500 reads "5", 50 reads "05",
/// and 123 reads "123".
pub open spec fn frac3_str(f: nat) -> Seq<char> {
    if f % 10 != 0 {
        seq![
            spec_digit_char(f / 100),
            spec_digit_char((f / 10) % 10),
            spec_digit_char(f % 10),
        ]
    } else if (f / 10) % 10 != 0 {
        seq![spec_digit_char(f / 100), spec_digit_char((f / 10) % 10)]
    } else {
        seq![spec_digit_char(f / 100)]
    }
}

/// A millisecond count rendered as seconds: the whole seconds in decimal,
/// then a point and the trimmed fractional digits only when the value is
/// not a whole number of seconds. 1000 reads "1", 2500 reads "2.5".
pub open spec fn millis_str(ms: nat) -> Seq<char> {
    if ms % 1000 == 0 {
        dec_str(ms / 1000)
    } else {
        dec_str(ms / 1000) + "."@ + frac3_str(ms % 1000)
    }
}

/// A volume factor in percent (0..=100) rendered as a unit fraction:
/// 0 reads "0", 100 reads "1", 50 reads "0.5", 33 reads "0.33".
pub open spec fn vol_str(p: nat) -> Seq<char> {
    if p == 0 {
        "0"@
    } else if p == 100 {
        "1"@
    } else if p % 10 == 0 {
        "0."@ + seq![spec_digit_char(p / 10)]
    } else {
        "0."@ + seq![spec_digit_char(p / 10), spec_digit_char(p % 10)]
    }
}

/// Every character of a decimal rendering is a digit; in particular the
/// rendering is non-empty and does not start with a flag character.
pub proof fn lemma_dec_str_digits(n: nat)
    ensures
        dec_str(n).len() >= 1,
        forall|i: int| 0 <= i < dec_str(n).len() ==> is_digit_char(#[trigger] dec_str(n)[i]),
    decreases n,
{
    if n >= 10 {
        lemma_dec_str_digits(n / 10);
    }
}

/// A single decimal digit as string text.
fn digit_str(d: u64) -> (r: &'static str)
    requires
        d < 10,
    ensures
        r@ =~= seq![spec_digit_char(d as nat)],
{
    if d == 0 {
        proof {
            reveal_strlit("0");
        }
        "0"
    } else if d == 1 {
        proof {
            reveal_strlit("1");
        }
        "1"
    } else if d == 2 {
        proof {
            reveal_strlit("2");
        }
        "2"
    } else if d == 3 {
        proof {
            reveal_strlit("3");
        }
        "3"
    } else if d == 4 {
        proof {
            reveal_strlit("4");
        }
        "4"
    } else if d == 5 {
        proof {
            reveal_strlit("5");
        }
        "5"
    } else if d == 6 {
        proof {
            reveal_strlit("6");
        }
        "6"
    } else if d == 7 {
        proof {
            reveal_strlit("7");
        }
        "7"
    } else if d == 8 {
        proof {
            reveal_strlit("8");
        }
        "8"
    } else {
        proof {
            reveal_strlit("9");
        }
        "9"
    }
}

/// Render an unsigned integer in decimal.
pub fn u64_to_string(n: u64) -> (s: String)
    ensures
        s@ == dec_str(n as nat),
    decreases n,
{
    if n < 10 {
        String::from_str(digit_str(n))
    } else {
        let mut s = u64_to_string(n / 10);
        s.append(digit_str(n % 10));
        s
    }
}

/// Render an unsigned integer in decimal.
pub fn u32_to_string(n: u32) -> (s: String)
    ensures
        s@ == dec_str(n as nat),
{
    u64_to_string(n as u64)
}

/// Render a millisecond count as a canonical seconds string.
pub fn millis_to_string(ms: u64) -> (s: String)
    ensures
        s@ == millis_str(ms as nat),
{
    let whole: u64 = ms / 1000;
    let frac: u64 = ms % 1000;
    let mut s = u64_to_string(whole);
    if frac != 0 {
        s.append(".");
        if frac % 10 != 0 {
            s.append(digit_str(frac / 100));
            s.append(digit_str((frac / 10) % 10));
            s.append(digit_str(frac % 10));
        } else if (frac / 10) % 10 != 0 {
            s.append(digit_str(frac / 100));
            s.append(digit_str((frac / 10) % 10));
        } else {
            s.append(digit_str(frac / 100));
        }
        proof {
            assert(s@ =~= millis_str(ms as nat));
        }
    }
    s
}

/// Render a percent volume (0..=100) as a canonical unit fraction string.
pub fn volume_to_string(p: u32) -> (s: String)
    requires
        p <= 100,
    ensures
        s@ == vol_str(p as nat),
{
    if p == 0 {
        String::from_str("0")
    } else if p == 100 {
        String::from_str("1")
    } else if p % 10 == 0 {
        let mut s = String::from_str("0.");
        s.append(digit_str((p / 10) as u64));
        proof {
            assert(s@ =~= vol_str(p as nat));
        }
        s
    } else {
        let mut s = String::from_str("0.");
        s.append(digit_str((p / 10) as u64));
        s.append(digit_str((p % 10) as u64));
        proof {
            assert(s@ =~= vol_str(p as nat));
        }
        s
    }
}

} // verus!
