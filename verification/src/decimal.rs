//! Rendering a reward amount as a decimal string.  The token service takes
//! amounts as decimal strings, so the registry must produce the canonical
//! decimal rendering of its (integer) reward amount.

use vstd::prelude::*;

verus! {

/// The character for one decimal digit.
pub open spec fn digit_char(d: nat) -> char
    recommends
        d < 10,
{
    if d == 0 {
        '0'
    } else if d == 1 {
        '1'
    } else if d == 2 {
        '2'
    } else if d == 3 {
        '3'
    } else if d == 4 {
        '4'
    } else if d == 5 {
        '5'
    } else if d == 6 {
        '6'
    } else if d == 7 {
        '7'
    } else if d == 8 {
        '8'
    } else {
        '9'
    }
}

/// The canonical decimal rendering of `n`: no sign, no leading zero except
/// for `n == 0` itself.
pub open spec fn dec_str(n: nat) -> Seq<char>
    decreases n,
{
    if n < 10 {
        seq![digit_char(n)]
    } else {
        dec_str(n / 10).push(digit_char(n % 10))
    }
}

/// The digits collected least-significant first, read back most-significant
/// first as characters.
spec fn rev_digit_chars(ds: Seq<u8>) -> Seq<char> {
    Seq::new(ds.len(), |i: int| digit_char(ds[ds.len() - 1 - i] as nat))
}

/// The one-character string for a decimal digit.
fn digit_to_str(d: u8) -> (s: &'static str)
    requires
        d < 10,
    ensures
        s@ == seq![digit_char(d as nat)],
{
    let s: &'static str = if d == 0 {
        "0"
    } else if d == 1 {
        "1"
    } else if d == 2 {
        "2"
    } else if d == 3 {
        "3"
    } else if d == 4 {
        "4"
    } else if d == 5 {
        "5"
    } else if d == 6 {
        "6"
    } else if d == 7 {
        "7"
    } else if d == 8 {
        "8"
    } else {
        "9"
    };
    proof {
        reveal_strlit("0");
        reveal_strlit("1");
        reveal_strlit("2");
        reveal_strlit("3");
        reveal_strlit("4");
        reveal_strlit("5");
        reveal_strlit("6");
        reveal_strlit("7");
        reveal_strlit("8");
        reveal_strlit("9");
        assert(s@ =~= seq![digit_char(d as nat)]);
    }
    s
}

/// Renders `n` in decimal, with the canonical digits of [`dec_str`].
pub fn decimal_string_u128(n: u128) -> (s: String)
    ensures
        s@ == dec_str(n as nat),
{
    if n == 0 {
        let s: String = digit_to_str(0).to_owned();
        return s;
    }
    let mut m: u128 = n;
    let mut digits: Vec<u8> = Vec::new();
    proof {
        assert(dec_str(n as nat) =~= dec_str(m as nat) + rev_digit_chars(digits@));
    }
    while m > 0
        invariant
            forall|k: int| 0 <= k < digits@.len() ==> digits@[k] < 10,
            if m > 0 {
                dec_str(n as nat) =~= dec_str(m as nat) + rev_digit_chars(digits@)
            } else {
                dec_str(n as nat) =~= rev_digit_chars(digits@)
            },
        decreases m,
    {
        let d: u8 = (m % 10) as u8;
        proof {
            assert(rev_digit_chars(digits@.push(d)) =~= seq![digit_char(d as nat)]
                + rev_digit_chars(digits@));
            if m >= 10 {
                assert(dec_str(m as nat) == dec_str((m / 10) as nat).push(
                    digit_char((m % 10) as nat),
                ));
                assert(dec_str(n as nat) =~= dec_str((m / 10) as nat) + rev_digit_chars(
                    digits@.push(d),
                ));
            } else {
                assert(dec_str(m as nat) == seq![digit_char(m as nat)]);
                assert(dec_str(n as nat) =~= rev_digit_chars(digits@.push(d)));
            }
        }
        digits.push(d);
        m = m / 10;
    }
    let mut s: String = String::new();
    let mut i: usize = digits.len();
    while i > 0
        invariant
            i <= digits@.len(),
            forall|k: int| 0 <= k < digits@.len() ==> digits@[k] < 10,
            dec_str(n as nat) =~= rev_digit_chars(digits@),
            s@ =~= rev_digit_chars(digits@).take(digits@.len() - i),
        decreases i,
    {
        i = i - 1;
        let part: &'static str = digit_to_str(digits[i]);
        s.append(part);
        proof {
            assert(s@ =~= rev_digit_chars(digits@).take(digits@.len() - i));
        }
    }
    proof {
        assert(rev_digit_chars(digits@).take(digits@.len() as int) =~= rev_digit_chars(digits@));
        assert(s@ =~= dec_str(n as nat));
    }
    s
}

} // verus!
