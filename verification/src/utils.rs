//! Formatting of durations for display: `HH:MM:SS` with every component
//! zero-padded to at least two digits.

use vstd::prelude::*;

use crate::duration::Duration;

verus! {

/// The decimal digit character for `d` in `0..=9`.
pub open spec fn digit_char(d: int) -> char {
    if d == 0 {
        '0'
    } else if d == 1 {
        '1'
    } else if d == 2 {
        '2'
    } else if d == 3 {
        '3'
    } else if d == 4 {
        '4'
    } else if d == 5 {
        '5'
    } else if d == 6 {
        '6'
    } else if d == 7 {
        '7'
    } else if d == 8 {
        '8'
    } else {
        '9'
    }
}

/// Decimal digits of `n`, most significant first.
pub open spec fn spec_dec(n: int) -> Seq<char>
    recommends
        n >= 0,
    decreases n,
{
    if n < 10 {
        seq![digit_char(n)]
    } else {
        spec_dec(n / 10).push(digit_char(n % 10))
    }
}

/// Decimal digits of `n`, zero-padded on the left to at least two.
pub open spec fn spec_pad2(n: int) -> Seq<char> {
    if 0 <= n < 10 {
        seq!['0', digit_char(n)]
    } else {
        spec_dec(n)
    }
}

/// `HH:MM:SS` for a whole number of seconds.
pub open spec fn spec_format_hms(secs: int) -> Seq<char> {
    spec_pad2(secs / 3600) + seq![':'] + spec_pad2((secs % 3600) / 60) + seq![':'] + spec_pad2(
        secs % 60,
    )
}

/// The whole seconds a duration displays as (the clamp is the machine
/// bound of `Duration::as_secs`, unreachable for real spans).
pub open spec fn spec_displayed_secs(d: Duration) -> int {
    if d.spec_secs() <= u64::MAX {
        d.spec_secs()
    } else {
        u64::MAX as int
    }
}

/// Powers of ten, for bounding digit counts.
pub open spec fn pow10(k: nat) -> int
    decreases k,
{
    if k == 0 {
        1
    } else {
        10 * pow10((k - 1) as nat)
    }
}

/// A number below the `k`-th power of ten has at most `k` digits.
pub proof fn lemma_dec_len_bound(n: int, k: nat)
    requires
        0 <= n < pow10(k),
        1 <= k,
    ensures
        1 <= spec_dec(n).len() <= k,
    decreases k,
{
    if n >= 10 {
        let p = pow10((k - 1) as nat);
        assert(n < 10 * p);
        assert(n / 10 < p) by {
            vstd::arithmetic::div_mod::lemma_div_is_ordered(n, 10 * p - 1, 10);
            vstd::arithmetic::div_mod::lemma_fundamental_div_mod_converse(10 * p - 1, 10, p - 1, 9);
        }
        assert(p > 1) by {
            lemma_pow10_positive((k - 1) as nat);
        }
        lemma_dec_len_bound(n / 10, (k - 1) as nat);
    }
}

pub proof fn lemma_pow10_positive(k: nat)
    ensures
        pow10(k) >= 1,
    decreases k,
{
    if k > 0 {
        lemma_pow10_positive((k - 1) as nat);
    }
}

/// Any value displayed from a 64-bit count of seconds has at most twenty
/// digits.
pub proof fn lemma_dec_len_u64(n: int)
    requires
        0 <= n <= u64::MAX,
    ensures
        1 <= spec_dec(n).len() <= 20,
{
    assert(pow10(20) == 100_000_000_000_000_000_000) by {
        reveal_with_fuel(pow10, 21);
    }
    lemma_dec_len_bound(n, 20);
}

/// A zero-padded component is two to twenty characters.
pub proof fn lemma_pad2_len(n: int)
    requires
        0 <= n <= u64::MAX,
    ensures
        2 <= spec_pad2(n).len() <= 20,
{
    if n >= 10 {
        lemma_dec_len_u64(n);
        assert(spec_dec(n).len() == spec_dec(n / 10).len() + 1);
        vstd::arithmetic::div_mod::lemma_div_nonincreasing(n, 10);
        vstd::arithmetic::div_mod::lemma_div_pos_is_pos(n, 10);
        lemma_dec_len_u64(n / 10);
    }
}

/// A two-digit value pads to exactly two characters.
pub proof fn lemma_pad2_len_exact(n: int)
    requires
        0 <= n < 100,
    ensures
        spec_pad2(n).len() == 2,
{
    if n >= 10 {
        assert(spec_dec(n / 10).len() == 1);
        assert(spec_dec(n) == spec_dec(n / 10).push(digit_char(n % 10)));
    }
}

/// A formatted `HH:MM:SS` string is 8 to 26 characters: the two-digit
/// minute and second fields, separators, and an hour field of at most
/// twenty digits.
pub proof fn lemma_format_hms_len(secs: int)
    requires
        0 <= secs <= u64::MAX,
    ensures
        8 <= spec_format_hms(secs).len() <= 26,
{
    vstd::arithmetic::div_mod::lemma_div_pos_is_pos(secs, 3600);
    vstd::arithmetic::div_mod::lemma_div_nonincreasing(secs, 3600);
    lemma_pad2_len(secs / 3600);
    vstd::arithmetic::div_mod::lemma_mod_pos_bound(secs, 3600);
    vstd::arithmetic::div_mod::lemma_div_pos_is_pos(secs % 3600, 60);
    vstd::arithmetic::div_mod::lemma_multiply_divide_lt(secs % 3600, 60, 60);
    lemma_pad2_len_exact((secs % 3600) / 60);
    vstd::arithmetic::div_mod::lemma_mod_pos_bound(secs, 60);
    lemma_pad2_len_exact(secs % 60);
}

/// The one-character string for a decimal digit.
fn digit_str(d: u64) -> (r: &'static str)
    requires
        d < 10,
    ensures
        r@ == seq![digit_char(d as int)],
{
    match d {
        0 => {
            proof {
                reveal_strlit("0");
                assert("0"@ =~= seq![digit_char(0)]);
            }
            "0"
        },
        1 => {
            proof {
                reveal_strlit("1");
                assert("1"@ =~= seq![digit_char(1)]);
            }
            "1"
        },
        2 => {
            proof {
                reveal_strlit("2");
                assert("2"@ =~= seq![digit_char(2)]);
            }
            "2"
        },
        3 => {
            proof {
                reveal_strlit("3");
                assert("3"@ =~= seq![digit_char(3)]);
            }
            "3"
        },
        4 => {
            proof {
                reveal_strlit("4");
                assert("4"@ =~= seq![digit_char(4)]);
            }
            "4"
        },
        5 => {
            proof {
                reveal_strlit("5");
                assert("5"@ =~= seq![digit_char(5)]);
            }
            "5"
        },
        6 => {
            proof {
                reveal_strlit("6");
                assert("6"@ =~= seq![digit_char(6)]);
            }
            "6"
        },
        7 => {
            proof {
                reveal_strlit("7");
                assert("7"@ =~= seq![digit_char(7)]);
            }
            "7"
        },
        8 => {
            proof {
                reveal_strlit("8");
                assert("8"@ =~= seq![digit_char(8)]);
            }
            "8"
        },
        _ => {
            proof {
                reveal_strlit("9");
                assert("9"@ =~= seq![digit_char(9)]);
            }
            "9"
        },
    }
}

/// Decimal representation of `n`.
pub fn dec_str(n: u64) -> (r: String)
    ensures
        r@ == spec_dec(n as int),
    decreases n,
{
    if n < 10 {
        String::from_str(digit_str(n))
    } else {
        let mut s = dec_str(n / 10);
        s.append(digit_str(n % 10));
        proof {
            assert(s@ =~= spec_dec(n as int));
        }
        s
    }
}

/// Decimal representation of `n`, zero-padded to at least two digits.
pub fn pad2_str(n: u64) -> (r: String)
    ensures
        r@ == spec_pad2(n as int),
{
    if n < 10 {
        let mut s = String::from_str("0");
        s.append(digit_str(n));
        proof {
            reveal_strlit("0");
            assert(s@ =~= spec_pad2(n as int));
        }
        s
    } else {
        dec_str(n)
    }
}

/// Format a duration as `HH:MM:SS`, each component zero-padded to at
/// least two digits; the hour field grows as needed.
pub fn format_duration(duration: Duration) -> (r: String)
    ensures
        r@ == spec_format_hms(spec_displayed_secs(duration)),
{
    let secs = duration.as_secs();
    let hours = secs / 3600;
    let minutes = (secs % 3600) / 60;
    let seconds = secs % 60;

    let mut s = pad2_str(hours);
    s.append(":");
    let m = pad2_str(minutes);
    s.append(m.as_str());
    s.append(":");
    let sec = pad2_str(seconds);
    s.append(sec.as_str());
    proof {
        reveal_strlit(":");
        assert(":"@ =~= seq![':']);
        assert(s@ =~= spec_format_hms(spec_displayed_secs(duration)));
    }
    s
}

} // verus!
