//! Gradient generation: an ordered list of RGB key colors is expanded into
//! a cyclic sequence of interpolated colors, one entry per animation frame
//! step.
//!
//! Interpolation runs on an integer step counter: each adjacent key pair
//! contributes the points `t = i/m` for `i` in `1..=m`, where `m` is the
//! whole number of steps per segment. A channel value is
//! `a + (b - a) * i / m` rounded down, the integer form of
//! `a + (b - a) * t` truncated to an 8-bit channel.

use vstd::prelude::*;

use vstd::arithmetic::div_mod::{
    lemma_div_by_multiple,
    lemma_div_is_ordered,
    lemma_div_pos_is_pos,
    lemma_fundamental_div_mod,
    lemma_fundamental_div_mod_converse,
};
use vstd::arithmetic::mul::{lemma_mul_inequality, lemma_mul_is_commutative};

use crate::color::{Color, ComputableColor};

verus! {

/// Channel value at step `i` of `n`: `a + (b - a) * i / n`, with the
/// division rounding down.
pub open spec fn lerp_channel(a: u8, b: u8, i: int, n: int) -> int
    recommends
        0 < n,
        0 <= i <= n,
{
    a + ((b - a) * i) / n
}

/// For a non-negative dividend the quotient lies between zero and the
/// value reached at `i == n`.
proof fn lemma_scaled_quotient_bounds(d: int, i: int, n: int)
    requires
        0 <= d,
        0 < n,
        0 <= i <= n,
    ensures
        0 <= (d * i) / n <= d,
{
    lemma_mul_inequality(i, n, d);
    lemma_mul_is_commutative(i, d);
    lemma_mul_is_commutative(n, d);
    lemma_div_is_ordered(d * i, d * n, n);
    lemma_div_by_multiple(d, n);
    vstd::arithmetic::mul::lemma_mul_nonnegative(d, i);
    lemma_div_pos_is_pos(d * i, n);
}

/// Euclidean division of a negated non-negative value: rounding down a
/// negative quotient is rounding up its magnitude.
proof fn lemma_neg_div_is_neg_ceil(d: int, n: int)
    requires
        0 <= d,
        0 < n,
    ensures
        (-d) / n == -((d + n - 1) / n),
{
    let q = (d + n - 1) / n;
    let r = (d + n - 1) % n;
    lemma_fundamental_div_mod(d + n - 1, n);
    assert(d + n - 1 == q * n + r);
    assert((-d) == (-q) * n + (n - 1 - r)) by {
        lemma_mul_is_commutative(q, n);
        vstd::arithmetic::mul::lemma_mul_unary_negation(q, n);
    }
    lemma_fundamental_div_mod_converse(-d, n, -q, n - 1 - r);
}

/// The interpolated channel always lies between its two endpoints.
pub proof fn lemma_lerp_channel_bounds(a: u8, b: u8, i: int, n: int)
    requires
        0 < n,
        0 <= i <= n,
    ensures
        a <= b ==> a <= lerp_channel(a, b, i, n) <= b,
        b <= a ==> b <= lerp_channel(a, b, i, n) <= a,
{
    if a <= b {
        lemma_scaled_quotient_bounds(b - a, i, n);
    } else {
        let d = (a - b) * i;
        lemma_neg_div_is_neg_ceil(d, n);
        assert((b - a) * i == -d) by {
            vstd::arithmetic::mul::lemma_mul_unary_negation(a - b, i);
        }
        vstd::arithmetic::mul::lemma_mul_nonnegative(a - b, i);
        lemma_div_pos_is_pos(d + n - 1, n);
        assert((d + n - 1) / n <= a - b) by {
            lemma_mul_inequality(i, n, a - b);
            lemma_mul_is_commutative(i, a - b);
            lemma_mul_is_commutative(n, a - b);
            lemma_div_is_ordered(d + n - 1, (a - b) * n + n - 1, n);
            lemma_fundamental_div_mod_converse((a - b) * n + n - 1, n, a - b, n - 1);
        }
    }
}

/// Per-channel monotonicity: between an ascending pair of endpoints the
/// interpolated value never decreases with the step, and between a
/// descending pair it never increases.
pub proof fn lemma_lerp_channel_monotonic(a: u8, b: u8, i1: int, i2: int, n: int)
    requires
        0 < n,
        0 <= i1 <= i2 <= n,
    ensures
        a <= b ==> lerp_channel(a, b, i1, n) <= lerp_channel(a, b, i2, n),
        b <= a ==> lerp_channel(a, b, i2, n) <= lerp_channel(a, b, i1, n),
{
    if a == b {
        assert((b - a) * i1 == 0) by {
            vstd::arithmetic::mul::lemma_mul_by_zero_is_zero(i1);
        }
        assert((b - a) * i2 == 0) by {
            vstd::arithmetic::mul::lemma_mul_by_zero_is_zero(i2);
        }
        vstd::arithmetic::div_mod::lemma_div_of0(n);
    } else if a < b {
        lemma_mul_inequality(i1, i2, b - a);
        lemma_mul_is_commutative(i1, b - a);
        lemma_mul_is_commutative(i2, b - a);
        lemma_div_is_ordered((b - a) * i1, (b - a) * i2, n);
    } else {
        lemma_mul_inequality(i1, i2, a - b);
        lemma_mul_is_commutative(i1, a - b);
        lemma_mul_is_commutative(i2, a - b);
        assert((b - a) * i1 == -((a - b) * i1)) by {
            vstd::arithmetic::mul::lemma_mul_unary_negation(a - b, i1);
        }
        assert((b - a) * i2 == -((a - b) * i2)) by {
            vstd::arithmetic::mul::lemma_mul_unary_negation(a - b, i2);
        }
        lemma_div_is_ordered((b - a) * i2, (b - a) * i1, n);
    }
}

/// The first interpolated point of a segment sits one `n`-th of the
/// channel span away from the first endpoint: for any positive step
/// count it equals the first key up to that rounding step.
pub proof fn lemma_lerp_channel_first_step(a: u8, b: u8, n: int)
    requires
        0 < n,
    ensures
        lerp_channel(a, b, 1, n) == a + (b - a) / n,
{
    assert((b - a) * 1 == b - a) by {
        vstd::arithmetic::mul::lemma_mul_basics_3(b - a);
    }
}

/// At the final step of a segment the interpolation lands exactly on the
/// second endpoint.
pub proof fn lemma_lerp_channel_endpoint(a: u8, b: u8, n: int)
    requires
        0 < n,
    ensures
        lerp_channel(a, b, n, n) == b,
{
    lemma_mul_is_commutative(b - a, n);
    vstd::arithmetic::div_mod::lemma_div_multiples_vanish(b - a, n);
}

/// Interpolated channel value as an executable function.
pub fn lerp(a: u8, b: u8, i: usize, n: usize) -> (r: u8)
    requires
        0 < n,
        i <= n,
    ensures
        r == lerp_channel(a, b, i as int, n as int),
{
    proof {
        lemma_lerp_channel_bounds(a, b, i as int, n as int);
    }
    if b >= a {
        let diff = (b - a) as u128;
        proof {
            vstd::arithmetic::mul::lemma_mul_upper_bound(
                diff as int,
                255,
                i as int,
                usize::MAX as int,
            );
        }
        let q = (diff * (i as u128)) / (n as u128);
        proof {
            lemma_scaled_quotient_bounds(diff as int, i as int, n as int);
        }
        a + (q as u8)
    } else {
        let diff = (a - b) as u128;
        proof {
            lemma_mul_inequality(i as int, n as int, diff as int);
            lemma_mul_is_commutative(i as int, diff as int);
            lemma_mul_is_commutative(n as int, diff as int);
            vstd::arithmetic::mul::lemma_mul_upper_bound(
                diff as int,
                255,
                n as int,
                usize::MAX as int,
            );
        }
        let q = (diff * (i as u128) + (n as u128) - 1) / (n as u128);
        proof {
            let d = diff as int * i as int;
            lemma_neg_div_is_neg_ceil(d, n as int);
            assert((b - a) * i == -d) by {
                vstd::arithmetic::mul::lemma_mul_unary_negation(diff as int, i as int);
            }
            lemma_div_pos_is_pos(d + n - 1, n as int);
            assert((d + n as int - 1) / n as int <= diff) by {
                lemma_div_is_ordered(d + n - 1, diff as int * n as int + n - 1, n as int);
                lemma_fundamental_div_mod_converse(
                    diff as int * n as int + n - 1,
                    n as int,
                    diff as int,
                    n - 1,
                );
            }
        }
        a - (q as u8)
    }
}

/// The color a gradient starts from when it degenerates to a single entry.
pub open spec fn rgb_key(k: (u8, u8, u8)) -> Color {
    Color::Rgb(k.0, k.1, k.2)
}

/// Gradient generation degenerates when there is a single key, no steps at
/// all, or fewer steps than segments (so no segment gets a whole step).
pub open spec fn gradient_degenerate(keys: Seq<(u8, u8, u8)>, steps: int) -> bool {
    ||| keys.len() == 1
    ||| steps == 0
    ||| steps < keys.len() - 1
}

/// Whole number of interpolation steps each adjacent key pair receives.
pub open spec fn steps_per_segment(keys: Seq<(u8, u8, u8)>, steps: int) -> int {
    steps / (keys.len() - 1)
}

/// The `j`-th entry of the interpolated sequence: segment `j / m`, step
/// `j % m + 1` of `m` within it.
pub open spec fn gradient_point(keys: Seq<(u8, u8, u8)>, m: int, j: int) -> Color {
    let s = j / m;
    let i = j % m + 1;
    Color::Rgb(
        lerp_channel(keys[s].0, keys[s + 1].0, i, m) as u8,
        lerp_channel(keys[s].1, keys[s + 1].1, i, m) as u8,
        lerp_channel(keys[s].2, keys[s + 1].2, i, m) as u8,
    )
}

/// Interpolate `steps` points across the adjacent pairs of `keys`,
/// yielding a cyclic color scheme positioned at its start. A degenerate
/// input (single key, zero steps, fewer steps than segments) yields the
/// single static first key instead of dividing by zero.
pub fn generate_gradient(keys: Vec<(u8, u8, u8)>, steps: usize) -> (r: ComputableColor)
    requires
        keys@.len() >= 1,
    ensures
        r.wf(),
        r.current == 0,
        gradient_degenerate(keys@, steps as int) ==> r.values@ =~= seq![rgb_key(keys@[0])],
        !gradient_degenerate(keys@, steps as int) ==> {
            let m = steps_per_segment(keys@, steps as int);
            &&& r.values@.len() == m * (keys@.len() - 1)
            &&& forall|j: int|
                0 <= j < r.values@.len() ==> r.values@[j] == gradient_point(keys@, m, j)
        },
{
    let k = keys.len();
    if k == 1 || steps == 0 || steps < k - 1 {
        let key = keys[0];
        return ComputableColor { values: vec![Color::Rgb(key.0, key.1, key.2)], current: 0 };
    }
    let m = steps / (k - 1);
    proof {
        lemma_div_pos_is_pos(steps as int, k - 1);
        lemma_fundamental_div_mod(steps as int, k - 1);
        vstd::arithmetic::mul::lemma_mul_nonnegative(m as int, k - 1);
        vstd::arithmetic::div_mod::lemma_remainder_lower(steps as int, k - 1);
        assert(m >= 1) by {
            vstd::arithmetic::div_mod::lemma_div_non_zero(steps as int, k - 1);
        }
    }
    let mut values: Vec<Color> = Vec::new();
    let mut s: usize = 0;
    while s < k - 1
        invariant
            keys@.len() == k,
            2 <= k <= usize::MAX,
            0 <= s <= k - 1,
            1 <= m,
            m == steps_per_segment(keys@, steps as int),
            m * (k - 1) <= steps,
            values@.len() == s * m,
            forall|j: int|
                0 <= j < values@.len() ==> values@[j] == gradient_point(keys@, m as int, j),
        decreases k - 1 - s,
    {
        proof {
            lemma_mul_inequality(s as int + 1, k - 1, m as int);
            lemma_mul_is_commutative(s as int + 1, m as int);
            lemma_mul_is_commutative(k - 1, m as int);
        }
        let cur = keys[s];
        let nxt = keys[s + 1];
        let mut idx: usize = 0;
        while idx < m
            invariant
                keys@.len() == k,
                2 <= k <= usize::MAX,
                0 <= s < k - 1,
                1 <= m,
                0 <= idx <= m,
                (s + 1) * m <= steps,
                cur == keys@[s as int],
                nxt == keys@[s as int + 1],
                values@.len() == s * m + idx,
                forall|j: int|
                    0 <= j < values@.len() ==> values@[j] == gradient_point(keys@, m as int, j),
            decreases m - idx,
        {
            let i = idx + 1;
            let point = Color::Rgb(
                lerp(cur.0, nxt.0, i, m),
                lerp(cur.1, nxt.1, i, m),
                lerp(cur.2, nxt.2, i, m),
            );
            proof {
                let j = s as int * m as int + idx as int;
                lemma_fundamental_div_mod_converse(j, m as int, s as int, idx as int);
                lemma_lerp_channel_bounds(cur.0, nxt.0, i as int, m as int);
                lemma_lerp_channel_bounds(cur.1, nxt.1, i as int, m as int);
                lemma_lerp_channel_bounds(cur.2, nxt.2, i as int, m as int);
                assert(gradient_point(keys@, m as int, j) == point);
            }
            values.push(point);
            idx = i;
        }
        proof {
            vstd::arithmetic::mul::lemma_mul_is_distributive_add_other_way(
                m as int,
                s as int,
                1,
            );
        }
        s = s + 1;
    }
    proof {
        lemma_mul_is_commutative(s as int, m as int);
    }
    ComputableColor { values, current: 0 }
}

/// Gradient round trip for a two-key gradient: every entry is an RGB
/// point whose channels lie between the two keys, entries move
/// monotonically from the first key toward the second, the first entry
/// equals the first key up to one interpolation step per channel, and
/// the final entry is exactly the second key.
pub proof fn lemma_gradient_two_keys(k1: (u8, u8, u8), k2: (u8, u8, u8), m: int, j1: int, j2: int)
    requires
        1 <= m,
        0 <= j1 <= j2 < m,
    ensures
        gradient_point(seq![k1, k2], m, j1) is Rgb,
        ({
            let r1 = gradient_point(seq![k1, k2], m, j1)->Rgb_0;
            let r2 = gradient_point(seq![k1, k2], m, j2)->Rgb_0;
            &&& (k1.0 <= k2.0 ==> k1.0 <= r1 <= r2 <= k2.0)
            &&& (k2.0 <= k1.0 ==> k2.0 <= r2 <= r1 <= k1.0)
        }),
        ({
            let g1 = gradient_point(seq![k1, k2], m, j1)->Rgb_1;
            let g2 = gradient_point(seq![k1, k2], m, j2)->Rgb_1;
            &&& (k1.1 <= k2.1 ==> k1.1 <= g1 <= g2 <= k2.1)
            &&& (k2.1 <= k1.1 ==> k2.1 <= g2 <= g1 <= k1.1)
        }),
        ({
            let b1 = gradient_point(seq![k1, k2], m, j1)->Rgb_2;
            let b2 = gradient_point(seq![k1, k2], m, j2)->Rgb_2;
            &&& (k1.2 <= k2.2 ==> k1.2 <= b1 <= b2 <= k2.2)
            &&& (k2.2 <= k1.2 ==> k2.2 <= b2 <= b1 <= k1.2)
        }),
        gradient_point(seq![k1, k2], m, 0)->Rgb_0 == k1.0 + (k2.0 - k1.0) / m,
        gradient_point(seq![k1, k2], m, m - 1) == rgb_key(k2),
{
    let keys = seq![k1, k2];
    assert forall|j: int| 0 <= j < m implies #[trigger] (j / m) == 0 && j % m == j by {
        vstd::arithmetic::div_mod::lemma_basic_div(j, m);
        vstd::arithmetic::div_mod::lemma_small_mod(j as nat, m as nat);
    }
    lemma_lerp_channel_bounds(k1.0, k2.0, j1 + 1, m);
    lemma_lerp_channel_bounds(k1.0, k2.0, j2 + 1, m);
    lemma_lerp_channel_bounds(k1.1, k2.1, j1 + 1, m);
    lemma_lerp_channel_bounds(k1.1, k2.1, j2 + 1, m);
    lemma_lerp_channel_bounds(k1.2, k2.2, j1 + 1, m);
    lemma_lerp_channel_bounds(k1.2, k2.2, j2 + 1, m);
    lemma_lerp_channel_monotonic(k1.0, k2.0, j1 + 1, j2 + 1, m);
    lemma_lerp_channel_monotonic(k1.1, k2.1, j1 + 1, j2 + 1, m);
    lemma_lerp_channel_monotonic(k1.2, k2.2, j1 + 1, j2 + 1, m);
    lemma_lerp_channel_first_step(k1.0, k2.0, m);
    lemma_lerp_channel_bounds(k1.0, k2.0, 1, m);
    lemma_lerp_channel_endpoint(k1.0, k2.0, m);
    lemma_lerp_channel_endpoint(k1.1, k2.1, m);
    lemma_lerp_channel_endpoint(k1.2, k2.2, m);
    lemma_lerp_channel_bounds(k1.0, k2.0, m, m);
    lemma_lerp_channel_bounds(k1.1, k2.1, m, m);
    lemma_lerp_channel_bounds(k1.2, k2.2, m, m);
}

/// Extend a gradient key list for seamless looping: append the reverse of
/// the list without its final key, so the animation runs forward then
/// backward as a cyclic palindrome.
pub fn extend_gradient_loop(keys: &mut Vec<(u8, u8, u8)>)
    requires
        old(keys)@.len() >= 1,
        2 * old(keys)@.len() - 1 <= usize::MAX,
    ensures
        final(keys)@ =~= old(keys)@ + old(keys)@.take(old(keys)@.len() - 1).reverse(),
{
    let n = keys.len();
    let mut i: usize = n - 1;
    while i > 0
        invariant
            n == old(keys)@.len(),
            1 <= n,
            2 * n - 1 <= usize::MAX,
            0 <= i <= n - 1,
            keys@.len() == n + (n - 1 - i),
            keys@.take(n as int) == old(keys)@,
            forall|j: int| n <= j < keys@.len() ==> keys@[j] == old(keys)@[2 * (n - 1) - j],
        decreases i,
    {
        let key = keys[i - 1];
        proof {
            assert(keys@[i - 1] == keys@.take(n as int)[i - 1]);
        }
        keys.push(key);
        i = i - 1;
    }
    proof {
        let orig = old(keys)@;
        let rev = orig.take(orig.len() - 1).reverse();
        assert forall|j: int| 0 <= j < keys@.len() implies keys@[j] == (orig + rev)[j] by {
            if j < n {
                assert(keys@[j] == keys@.take(n as int)[j]);
            } else {
                assert(rev[j - n] == orig.take(orig.len() - 1)[orig.len() - 2 - (j - n)]);
            }
        }
    }
}

} // verus!
