use vstd::prelude::*;

verus! {

/// One whole unit of a [`Fixed`] value.
pub const UNIT: i64 = 1_000_000;

/// The granularity of every quantized range of the catalog: 0.05.
pub const STEP: i64 = 50_000;

/// A decimal number held exactly, as a count of millionths.
///
/// Strengths, percentages and guidance values of a graph are decimals with a
/// few fractional digits. Holding them as integers keeps the arithmetic of
/// range sampling exact: `0.45` is `Fixed { micros: 450_000 }`.
#[derive(Clone, Copy, Debug, PartialEq, Eq, Structural)]
pub struct Fixed {
    pub micros: i64,
}

impl View for Fixed {
    type V = int;

    open spec fn view(&self) -> int {
        self.micros as int
    }
}

impl Fixed {
    /// The value of `micros` millionths.
    pub fn new(micros: i64) -> (r: Fixed)
        ensures
            r@ == micros,
    {
        Fixed { micros }
    }

    /// The value 0.
    pub fn zero() -> (r: Fixed)
        ensures
            r@ == 0,
    {
        Fixed { micros: 0 }
    }

    /// The value 1.
    pub fn one() -> (r: Fixed)
        ensures
            r@ == UNIT,
    {
        Fixed { micros: UNIT }
    }
}

/// How many candidates the quantized range `(min, max, step)` holds: the
/// values `max`, `max - step`, ... that are not below `min`, and `min` itself
/// where the sequence does not end on it.
pub open spec fn quantized_count(min: int, max: int, step: int) -> int {
    (max - min) / step + 1 + if (max - min) % step == 0 {
        0int
    } else {
        1int
    }
}

/// The candidate at position `i` of the quantized range, counted from `max`
/// downwards; the last position holds `min`.
pub open spec fn quantized_at(min: int, max: int, step: int, i: int) -> int {
    if i <= (max - min) / step {
        max - i * step
    } else {
        min
    }
}

/// The candidates of the quantized range `(min, max, step)`, in the order in
/// which they are enumerated.
pub open spec fn quantized_candidates(min: int, max: int, step: int) -> Seq<int> {
    Seq::new(quantized_count(min, max, step) as nat, |i: int| quantized_at(min, max, step, i))
}

/// The value that quantized range sampling gives for the random number
/// `draw`: `max` where the range is no wider than one step, else the
/// candidate at position `draw` modulo the number of candidates.
pub open spec fn quantized_choice(min: int, max: int, step: int, draw: int) -> int {
    if max - min > step {
        quantized_at(min, max, step, draw % quantized_count(min, max, step))
    } else {
        max
    }
}

/// Every position below the number of steps that fit lies within the range.
pub proof fn lemma_quantized_at_bounds(min: int, max: int, step: int, i: int)
    requires
        step > 0,
        max >= min,
        0 <= i,
    ensures
        min <= quantized_at(min, max, step, i) <= max,
        i <= (max - min) / step ==> 0 <= i * step <= max - min,
{
    let d = max - min;
    let k = d / step;
    assert(0 <= k && k * step <= d) by (nonlinear_arith)
        requires
            d >= 0,
            step > 0,
            k == d / step,
    ;
    if i <= k {
        assert(0 <= i * step <= k * step) by (nonlinear_arith)
            requires
                0 <= i <= k,
                step > 0,
        ;
    }
}

/// Quantized range sampling, for a random number already drawn.
pub fn quantized_pick(min: Fixed, max: Fixed, step: i64, draw: usize) -> (r: Fixed)
    requires
        step > 0,
    ensures
        r@ == quantized_choice(min@, max@, step as int, draw as int),
{
    let d: i128 = max.micros as i128 - min.micros as i128;
    let s: i128 = step as i128;
    if d > s {
        let k: i128 = d / s;
        let rest: i128 = d % s;
        let count: i128 = if rest == 0 {
            k + 1
        } else {
            k + 2
        };
        proof {
            lemma_quantized_at_bounds(min@, max@, step as int, 0);
            assert(0 <= k <= d) by (nonlinear_arith)
                requires
                    d > s,
                    s > 0,
                    k == d / s,
            ;
        }
        let idx: i128 = (draw as i128) % count;
        if idx <= k {
            proof {
                lemma_quantized_at_bounds(min@, max@, step as int, idx as int);
            }
            let v: i128 = max.micros as i128 - idx * s;
            Fixed { micros: v as i64 }
        } else {
            min
        }
    } else {
        max
    }
}

/// What quantized range sampling promises of every sample: it lies within the
/// range; on a range no wider than one step it is `max`; and where the width
/// of the range is a whole number of steps, it lies a whole number of steps
/// above `min`.
pub proof fn lemma_quantized_range(min: int, max: int, step: int, draw: int)
    requires
        step > 0,
        max > min,
        draw >= 0,
    ensures
        min <= quantized_choice(min, max, step, draw) <= max,
        max - min <= step ==> quantized_choice(min, max, step, draw) == max,
        (max - min) % step == 0 ==> (quantized_choice(min, max, step, draw) - min) % step == 0,
        (max - quantized_choice(min, max, step, draw)) % step == 0 || quantized_choice(
            min,
            max,
            step,
            draw,
        ) == min,
{
    let d = max - min;
    let k = d / step;
    let n = quantized_count(min, max, step);
    if d > step {
        assert(k >= 0) by (nonlinear_arith)
            requires
                d >= 0,
                step > 0,
                k == d / step,
        ;
        let i = draw % n;
        assert(0 <= i < n) by (nonlinear_arith)
            requires
                n > 0,
                draw >= 0,
                i == draw % n,
        ;
        lemma_quantized_at_bounds(min, max, step, i);
        if i <= k {
            let x = max - i * step;
            assert((i * step) % step == 0) by (nonlinear_arith)
                requires
                    step > 0,
            ;
            if d % step == 0 {
                assert(d == k * step) by (nonlinear_arith)
                    requires
                        step > 0,
                        k == d / step,
                        d % step == 0,
                ;
                assert(x - min == (k - i) * step) by (nonlinear_arith)
                    requires
                        x == max - i * step,
                        max - min == k * step,
                ;
                assert(((k - i) * step) % step == 0) by (nonlinear_arith)
                    requires
                        step > 0,
                ;
            }
        }
    } else {
        if d % step == 0 {
            assert(d == step) by (nonlinear_arith)
                requires
                    0 < d <= step,
                    d % step == 0,
            ;
            assert(step % step == 0) by (nonlinear_arith)
                requires
                    step > 0,
            ;
        }
        assert(0int % step == 0) by (nonlinear_arith)
            requires
                step > 0,
        ;
    }
}

} // verus!
