//! Pure typing metrics in fixed-point units.
//!
//! Speeds are words-per-minute in hundredths (centi-WPM), percentages are in
//! hundredths of a percent (0 ..= 10000), and elapsed time is in milliseconds.
//! The words-per-minute convention is five characters per word.

use vstd::prelude::*;

verus! {

/// Clamps an unbounded integer into the `u64` range from above.
pub open spec fn sat_u64(x: int) -> int {
    if x > u64::MAX { u64::MAX as int } else { x }
}

/// Words-per-minute in hundredths: `(chars / 5) / (elapsed / 60)`, and zero
/// when less than a sixtieth of a second has elapsed.
pub open spec fn wpm_centi(chars_typed: int, elapsed_ms: int) -> int {
    if elapsed_ms * 60 < 1000 {
        0
    } else {
        chars_typed * 1_200_000 / elapsed_ms
    }
}

/// Percentage of correct characters in hundredths; an empty attempt counts as
/// fully accurate.
pub open spec fn accuracy_centi(correct: int, attempted: int) -> int {
    if attempted == 0 {
        10000
    } else {
        correct * 10000 / attempted
    }
}

/// How many positions of `typed` hold the same character as `quote`.
pub open spec fn count_matching(typed: Seq<char>, quote: Seq<char>) -> nat
    decreases typed.len(),
{
    if typed.len() == 0 {
        0
    } else {
        count_matching(typed.drop_last(), quote) + (if typed.len() - 1 < quote.len()
            && typed.last() == quote[typed.len() - 1] {
            1nat
        } else {
            0nat
        })
    }
}

/// No more positions can match than were typed.
pub proof fn lemma_count_matching_le_len(typed: Seq<char>, quote: Seq<char>)
    ensures
        count_matching(typed, quote) <= typed.len(),
    decreases typed.len(),
{
    if typed.len() > 0 {
        lemma_count_matching_le_len(typed.drop_last(), quote);
    }
}

/// Calculate typing speed from characters typed and elapsed milliseconds.
pub fn calculate_wpm(chars_typed: usize, elapsed_ms: u64) -> (r: u64)
    ensures
        r == sat_u64(wpm_centi(chars_typed as int, elapsed_ms as int)),
{
    if elapsed_ms < 17 {
        return 0u64;
    }
    let v: u128 = (chars_typed as u128) * 1_200_000u128 / (elapsed_ms as u128);
    if v > u64::MAX as u128 {
        u64::MAX
    } else {
        v as u64
    }
}

/// Calculate raw typing speed (all characters, mistakes included) from
/// characters typed and elapsed milliseconds. Numerically the same formula as
/// [`calculate_wpm`]; kept separate because the two readings are reported
/// separately.
pub fn calculate_raw_wpm(total_chars: usize, elapsed_ms: u64) -> (r: u64)
    ensures
        r == sat_u64(wpm_centi(total_chars as int, elapsed_ms as int)),
{
    calculate_wpm(total_chars, elapsed_ms)
}

/// Calculate the accuracy percentage, in hundredths of a percent.
pub fn calculate_accuracy(correct: usize, attempted: usize) -> (r: u64)
    ensures
        r == sat_u64(accuracy_centi(correct as int, attempted as int)),
        correct <= attempted ==> r <= 10000,
{
    if attempted == 0 {
        return 10000u64;
    }
    let v: u128 = (correct as u128) * 10000u128 / (attempted as u128);
    proof {
        if correct <= attempted {
            vstd::arithmetic::div_mod::lemma_div_is_ordered(
                correct as int * 10000,
                attempted as int * 10000,
                attempted as int,
            );
            vstd::arithmetic::div_mod::lemma_div_multiples_vanish(
                10000,
                attempted as int,
            );
        }
    }
    if v > u64::MAX as u128 {
        u64::MAX
    } else {
        v as u64
    }
}

/// `r` is the integer square root of `x`: the largest integer whose square
/// does not exceed `x`.
pub open spec fn is_floor_sqrt(x: int, r: int) -> bool {
    0 <= r && r * r <= x && x < (r + 1) * (r + 1)
}

/// The integer square root, as a value.
pub open spec fn floor_sqrt(x: int) -> int {
    choose|r: int| is_floor_sqrt(x, r)
}

/// The integer square root is unique.
pub proof fn lemma_floor_sqrt_unique(x: int, a: int, b: int)
    requires
        is_floor_sqrt(x, a),
        is_floor_sqrt(x, b),
    ensures
        a == b,
{
    if a < b {
        assert((a + 1) * (a + 1) <= b * b) by (nonlinear_arith)
            requires
                0 <= a,
                a + 1 <= b,
        ;
    }
    if b < a {
        assert((b + 1) * (b + 1) <= a * a) by (nonlinear_arith)
            requires
                0 <= b,
                b + 1 <= a,
        ;
    }
}

/// Integer square root by binary search.
fn isqrt_u128(x: u128) -> (r: u128)
    ensures
        is_floor_sqrt(x as int, r as int),
        r <= u64::MAX,
{
    let mut lo: u128 = 0;
    let mut hi: u128 = u64::MAX as u128;
    proof {
        assert((u64::MAX + 1) * (u64::MAX + 1) > u128::MAX) by (nonlinear_arith);
    }
    while lo < hi
        invariant
            lo <= hi <= u64::MAX,
            lo * lo <= x,
            (hi + 1) * (hi + 1) > x,
        decreases hi - lo,
    {
        let mid: u128 = lo + (hi - lo + 1) / 2;
        proof {
            assert(mid * mid <= u128::MAX) by (nonlinear_arith)
                requires
                    0 <= mid <= u64::MAX,
            ;
        }
        if mid * mid <= x {
            lo = mid;
        } else {
            hi = mid - 1;
        }
    }
    lo
}

/// Count the positions of `typed` whose character matches `quote`.
pub fn count_correct_chars(typed: &Vec<char>, quote: &Vec<char>) -> (r: usize)
    ensures
        r == count_matching(typed@, quote@),
{
    let mut correct: usize = 0;
    let mut i: usize = 0;
    while i < typed.len()
        invariant
            i <= typed@.len(),
            correct == count_matching(typed@.take(i as int), quote@),
            correct <= i,
        decreases typed@.len() - i,
    {
        proof {
            assert(typed@.take(i + 1).drop_last() =~= typed@.take(i as int));
            assert(typed@.take(i + 1).last() == typed@[i as int]);
        }
        if i < quote.len() && typed[i] == quote[i] {
            correct = correct + 1;
        }
        i = i + 1;
    }
    proof {
        assert(typed@.take(typed@.len() as int) =~= typed@);
    }
    correct
}

/// The sum of a sequence of samples.
pub open spec fn sum_of(s: Seq<u64>) -> int
    decreases s.len(),
{
    if s.len() == 0 {
        0
    } else {
        sum_of(s.drop_last()) + s.last()
    }
}

/// The sum of squared deviations of the samples from `m`.
pub open spec fn sumsq_dev(s: Seq<u64>, m: int) -> int
    decreases s.len(),
{
    if s.len() == 0 {
        0
    } else {
        sumsq_dev(s.drop_last(), m) + (s.last() - m) * (s.last() - m)
    }
}

/// The speed readings of a sampled history of `(time, speed)` pairs.
pub open spec fn speeds_of(s: Seq<(u64, u64)>) -> Seq<u64> {
    s.map_values(|p: (u64, u64)| p.1)
}

/// Consistency in hundredths of a percent: fewer than two samples count as
/// fully consistent; otherwise `(mean - stddev) / mean * 100`, clamped to
/// `[0, 100]`, over the integer mean and the integer population standard
/// deviation. A zero mean yields zero.
pub open spec fn consistency_centi(s: Seq<u64>) -> int {
    if s.len() < 2 {
        10000
    } else {
        let m = sum_of(s) / s.len() as int;
        if m == 0 {
            0
        } else {
            let sd = floor_sqrt(sumsq_dev(s, m) / s.len() as int);
            if sd >= m {
                0
            } else {
                (m - sd) * 10000 / m
            }
        }
    }
}

/// The squared deviations can be accumulated without exceeding `u128`.
/// This holds of every history a session can record in practice.
pub open spec fn consistency_fits(s: Seq<u64>) -> bool {
    sumsq_dev(s, sum_of(s) / s.len() as int) <= u128::MAX
}

/// Every sample's sum is bounded by the count times the largest value.
proof fn lemma_sum_of_bound(s: Seq<u64>)
    ensures
        0 <= sum_of(s) <= s.len() * (u64::MAX as int),
    decreases s.len(),
{
    if s.len() == 0 {
    } else {
        lemma_sum_of_bound(s.drop_last());
        assert((s.len() - 1) * (u64::MAX as int) + (u64::MAX as int) == s.len() * (
        u64::MAX as int)) by (nonlinear_arith);
    }
}

/// Calculate the consistency percentage, in hundredths of a percent, from a
/// history of `(time in milliseconds, speed in centi-WPM)` samples.
pub fn calculate_consistency(wpm_history: &Vec<(u64, u64)>) -> (r: u64)
    ensures
        r <= 10000,
        consistency_fits(speeds_of(wpm_history@)) ==> r == consistency_centi(
            speeds_of(wpm_history@),
        ),
{
    let ghost speeds = speeds_of(wpm_history@);
    let n = wpm_history.len();
    if n < 2 {
        return 10000u64;
    }
    proof {
        assert(speeds.len() == n);
    }

    let mut sum: u128 = 0;
    let mut i: usize = 0;
    while i < n
        invariant
            2 <= n == wpm_history@.len(),
            speeds == speeds_of(wpm_history@),
            i <= n,
            sum == sum_of(speeds.take(i as int)),
            sum <= i * (u64::MAX as int),
        decreases n - i,
    {
        proof {
            assert(speeds.take(i + 1).drop_last() =~= speeds.take(i as int));
            assert(speeds[i as int] == wpm_history@[i as int].1);
            assert(i * (u64::MAX as int) + (u64::MAX as int) == (i + 1) * (u64::MAX as int))
                by (nonlinear_arith);
            assert((i + 1) * (u64::MAX as int) <= u128::MAX) by (nonlinear_arith)
                requires
                    0 <= i + 1 <= u64::MAX,
            ;
        }
        let x = wpm_history[i].1;
        sum = sum + (x as u128);
        i = i + 1;
    }
    proof {
        assert(speeds.take(n as int) =~= speeds);
    }

    let mean: u128 = sum / (n as u128);
    proof {
        lemma_sum_of_bound(speeds);
        assert(sum_of(speeds) <= speeds.len() * (u64::MAX as int));
        vstd::arithmetic::div_mod::lemma_div_is_ordered(
            sum_of(speeds),
            speeds.len() * (u64::MAX as int),
            speeds.len() as int,
        );
        vstd::arithmetic::div_mod::lemma_div_multiples_vanish(
            u64::MAX as int,
            speeds.len() as int,
        );
        assert(speeds.len() * (u64::MAX as int) == (speeds.len() as int) * (u64::MAX as int));
        assert(mean <= u64::MAX);
    }
    if mean == 0 {
        return 0u64;
    }

    // Accumulate the squared deviations, saturating at the top of `u128`;
    // saturation is unreachable for any history a session records in practice.
    let mut sumsq: u128 = 0;
    let ghost exact: int = 0;
    let mut j: usize = 0;
    while j < n
        invariant
            2 <= n == wpm_history@.len(),
            speeds == speeds_of(wpm_history@),
            j <= n,
            0 < mean <= u64::MAX,
            exact == sumsq_dev(speeds.take(j as int), mean as int),
            exact >= 0,
            sumsq == (if exact <= u128::MAX {
                exact
            } else {
                u128::MAX as int
            }),
        decreases n - j,
    {
        proof {
            assert(speeds.take(j + 1).drop_last() =~= speeds.take(j as int));
            assert(speeds[j as int] == wpm_history@[j as int].1);
        }
        let x: u128 = wpm_history[j].1 as u128;
        let d: u128 = if x >= mean {
            x - mean
        } else {
            mean - x
        };
        proof {
            assert(d * d <= u128::MAX) by (nonlinear_arith)
                requires
                    0 <= d <= u64::MAX,
            ;
            assert((x - mean) * (x - mean) == d * d) by (nonlinear_arith)
                requires
                    d == (if x >= mean {
                        x - mean
                    } else {
                        mean - x
                    }),
            ;
        }
        let term: u128 = d * d;
        if sumsq > u128::MAX - term {
            sumsq = u128::MAX;
        } else {
            sumsq = sumsq + term;
        }
        proof {
            exact = exact + (x - mean) * (x - mean);
        }
        j = j + 1;
    }
    proof {
        assert(speeds.take(n as int) =~= speeds);
    }

    let var: u128 = sumsq / (n as u128);
    let sd: u128 = isqrt_u128(var);
    let r: u64 = if sd >= mean {
        0u64
    } else {
        proof {
            assert((mean - sd) * 10000 <= u128::MAX) by (nonlinear_arith)
                requires
                    0 < mean <= u64::MAX,
                    0 <= sd < mean,
            ;
            vstd::arithmetic::div_mod::lemma_div_is_ordered(
                (mean - sd) * 10000,
                (mean as int) * 10000,
                mean as int,
            );
            vstd::arithmetic::div_mod::lemma_div_multiples_vanish(10000, mean as int);
            assert((mean as int) * 10000 == (mean as int) * 10000);
        }
        let q: u128 = ((mean - sd) * 10000u128) / mean;
        q as u64
    };
    proof {
        if consistency_fits(speeds) {
            assert(exact == sumsq_dev(speeds, mean as int));
            assert(sumsq == exact);
            assert(exists|v: int| is_floor_sqrt(var as int, v)) by {
                assert(is_floor_sqrt(var as int, sd as int));
            }
            lemma_floor_sqrt_unique(var as int, sd as int, floor_sqrt(var as int));
        }
    }
    r
}

/// Absolute value.
pub open spec fn abs_i(x: int) -> int {
    if x < 0 {
        -x
    } else {
        x
    }
}

/// Fifteen percent of the gap, rounded toward zero.
pub open spec fn step_toward(d: int) -> int {
    if d >= 0 {
        d * 15 / 100
    } else {
        -((-d) * 15 / 100)
    }
}

/// The displayed value after one smoothing step of the gauge toward `target`,
/// given the previously displayed value `current` and the target seen by the
/// previous step, `last`. A zero target resets the gauge; a gap under half a
/// unit is damped (the display is left unchanged); otherwise the display moves
/// by fifteen percent of the gap. A gap under a tenth of a unit would snap to
/// the target exactly, but the damping rule fires first on every such gap.
pub open spec fn animate_display(current: int, target: int, last: int) -> int {
    if target == 0 {
        0
    } else if abs_i(target - last) < 50 {
        current
    } else if abs_i(target - last) < 10 {
        target
    } else {
        current + step_toward(target - last)
    }
}

/// The remembered target after one smoothing step; it tracks the displayed
/// value except under damping, which leaves it unchanged.
pub open spec fn animate_last(current: int, target: int, last: int) -> int {
    if target == 0 {
        0
    } else if abs_i(target - last) < 50 {
        last
    } else if abs_i(target - last) < 10 {
        target
    } else {
        current + step_toward(target - last)
    }
}

/// Clamps an unbounded integer into the `i64` range.
pub open spec fn sat_i64(x: int) -> int {
    if x > i64::MAX {
        i64::MAX as int
    } else if x < i64::MIN {
        i64::MIN as int
    } else {
        x
    }
}

/// Move the displayed speed one smoothing step toward `target`, all values in
/// centi-WPM. `last_for_animation` is the target the previous step saw, and is
/// updated to the value now displayed.
pub fn animate_wpm(current: i64, target: i64, last_for_animation: &mut i64) -> (r: i64)
    ensures
        r == sat_i64(animate_display(current as int, target as int, *old(last_for_animation) as int)),
        *final(last_for_animation) == sat_i64(
            animate_last(current as int, target as int, *old(last_for_animation) as int),
        ),
{
    if target == 0 {
        *last_for_animation = 0;
        return 0i64;
    }
    let d: i128 = (target as i128) - (*last_for_animation as i128);
    let neg = d < 0;
    let mag: u128 = (if neg {
        -d
    } else {
        d
    }) as u128;
    if mag < 50 {
        return current;
    }
    let step: u128 = mag * 15 / 100;
    proof {
        assert(mag * 15 <= u128::MAX) by (nonlinear_arith)
            requires
                0 <= mag <= u64::MAX + u64::MAX,
        ;
        vstd::arithmetic::div_mod::lemma_div_is_ordered(mag * 15, mag * 100, 100);
        assert(mag * 100 == 100 * (mag as int)) by (nonlinear_arith);
        vstd::arithmetic::div_mod::lemma_div_multiples_vanish(mag as int, 100);
    }
    let newv: i128 = if neg {
        (current as i128) - (step as i128)
    } else {
        (current as i128) + (step as i128)
    };
    if mag < 10 {
        *last_for_animation = target;
        return target;
    }
    let r: i64 = if newv > i64::MAX as i128 {
        i64::MAX
    } else if newv < i64::MIN as i128 {
        i64::MIN
    } else {
        newv as i64
    };
    *last_for_animation = r;
    r
}

/// While the gap from the remembered target to the new target is at least
/// half a unit, one smoothing step from a steady state (display and
/// remembered target agree) moves the display strictly toward the target
/// without reaching or overshooting it.
pub proof fn lemma_animate_approaches(current: int, target: int)
    requires
        target != 0,
        abs_i(target - current) >= 50,
    ensures
        current < target ==> current < animate_display(current, target, current) < target,
        current > target ==> target < animate_display(current, target, current) < current,
{
    let d = target - current;
    if current < target {
        assert(d >= 50);
        vstd::arithmetic::div_mod::lemma_div_is_ordered(750int, d * 15, 100);
        assert(750int / 100 == 7) by (nonlinear_arith);
        assert(d * 15 < d * 100) by (nonlinear_arith)
            requires
                d > 0,
        ;
        vstd::arithmetic::div_mod::lemma_div_is_ordered(d * 15, d * 100 - 100, 100);
        assert((d * 100 - 100) / 100 == d - 1) by {
            assert(d * 100 - 100 == 100 * (d - 1));
            vstd::arithmetic::div_mod::lemma_div_multiples_vanish(d - 1, 100);
        }
    } else {
        let e = -d;
        assert(e >= 50);
        vstd::arithmetic::div_mod::lemma_div_is_ordered(750int, e * 15, 100);
        assert(750int / 100 == 7) by (nonlinear_arith);
        assert(e * 15 < e * 100) by (nonlinear_arith)
            requires
                e > 0,
        ;
        vstd::arithmetic::div_mod::lemma_div_is_ordered(e * 15, e * 100 - 100, 100);
        assert((e * 100 - 100) / 100 == e - 1) by {
            assert(e * 100 - 100 == 100 * (e - 1));
            vstd::arithmetic::div_mod::lemma_div_multiples_vanish(e - 1, 100);
        }
    }
}

/// The sum of a sequence whose elements all equal `x`.
proof fn lemma_sum_of_constant(s: Seq<u64>, x: u64)
    requires
        forall|i: int| 0 <= i < s.len() ==> #[trigger] s[i] == x,
    ensures
        sum_of(s) == s.len() * x,
    decreases s.len(),
{
    if s.len() == 0 {
    } else {
        lemma_sum_of_constant(s.drop_last(), x);
        assert((s.len() - 1) * x + x == s.len() * x) by (nonlinear_arith);
    }
}

/// The squared deviations from `x` vanish when every element equals `x`.
proof fn lemma_sumsq_dev_constant(s: Seq<u64>, x: u64)
    requires
        forall|i: int| 0 <= i < s.len() ==> #[trigger] s[i] == x,
    ensures
        sumsq_dev(s, x as int) == 0,
    decreases s.len(),
{
    if s.len() == 0 {
    } else {
        assert(forall|i: int|
            0 <= i < s.drop_last().len() ==> #[trigger] s.drop_last()[i] == s[i]);
        lemma_sumsq_dev_constant(s.drop_last(), x);
        assert(s.last() == s[s.len() - 1]);
    }
}

/// A history of two or more equal, positive speed readings is fully
/// consistent: its dispersion is zero, so consistency is a full hundred
/// percent.
pub proof fn lemma_consistency_uniform(s: Seq<u64>)
    requires
        s.len() >= 2,
        forall|i: int| 0 <= i < s.len() ==> #[trigger] s[i] == s[0],
        s[0] > 0,
    ensures
        consistency_centi(s) == 10000,
{
    let x = s[0];
    lemma_sum_of_constant(s, x);
    assert(s.len() * x == (s.len() as int) * (x as int));
    vstd::arithmetic::div_mod::lemma_div_multiples_vanish(x as int, s.len() as int);
    assert((s.len() as int) * (x as int) / (s.len() as int) == x as int);
    let m = sum_of(s) / s.len() as int;
    assert(m == x as int);
    lemma_sumsq_dev_constant(s, x);
    assert(sumsq_dev(s, m) == 0);
    assert(0int / s.len() as int == 0) by {
        vstd::arithmetic::div_mod::lemma_div_multiples_vanish(0, s.len() as int);
    }
    assert(exists|v: int| is_floor_sqrt(0, v)) by {
        assert(is_floor_sqrt(0, 0));
    }
    lemma_floor_sqrt_unique(0, 0, floor_sqrt(0));
    assert(floor_sqrt(0) == 0);
    vstd::arithmetic::div_mod::lemma_div_multiples_vanish(10000, m);
    assert(m * 10000 == (m - 0) * 10000);
    assert((m - 0) * 10000 / m == 10000);
}

} // verus!
