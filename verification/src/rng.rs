use vstd::prelude::*;
use vstd::slice::*;
use crate::fixed::{
    lemma_quantized_at_bounds, lemma_quantized_range, quantized_candidates, quantized_choice,
    quantized_count, quantized_pick, Fixed, STEP,
};

verus! {

/// A random `usize`, from `rand::random`. Nothing is claimed of the number:
/// every `usize` may come back.
#[verifier::external_body]
pub(crate) fn random_usize() -> (r: usize) {
    rand::random::<usize>()
}

/// A random `u32`, from `rand::random`. Nothing is claimed of the number.
#[verifier::external_body]
pub(crate) fn random_u32() -> (r: u32) {
    rand::random::<u32>()
}

/// A random `u8`, from `rand::random`. Nothing is claimed of the number.
#[verifier::external_body]
pub(crate) fn random_u8() -> (r: u8) {
    rand::random::<u8>()
}

/// A random `bool`, from `rand::random`. Nothing is claimed of the value.
#[verifier::external_body]
pub(crate) fn random_bool() -> (r: bool) {
    rand::random::<bool>()
}

/// A number from `min` to `max`, both included, from `Rng::gen_range` on the
/// thread's generator. `gen_range` panics on an empty range, which `requires`
/// leaves out; the result lies within the range it was given.
#[verifier::external_body]
pub(crate) fn gen_range_u8(min: u8, max: u8) -> (r: u8)
    requires
        min <= max,
    ensures
        min <= r <= max,
{
    rand::Rng::gen_range(&mut rand::thread_rng(), min..=max)
}

/// The element of `v` that the random number `draw` selects.
pub fn element_at<T>(v: &[T], draw: usize) -> (r: &T)
    requires
        v@.len() > 0,
    ensures
        *r == v@[draw as int % v@.len() as int],
{
    let idx: usize = draw % v.len();
    &v[idx]
}

/// One element of `v`, each equally likely. A slice of one element needs no
/// random number.
pub fn rand_element<T>(v: &[T]) -> (r: &T)
    requires
        v@.len() > 0,
    ensures
        v@.contains(*r),
        v@.len() == 1 ==> *r == v@[0],
{
    if v.len() == 1 {
        &v[0]
    } else {
        let draw: usize = random_usize();
        element_at(v, draw)
    }
}

/// A whole number from `min` to `max`, both included; `max` where the range
/// is empty or a single number.
pub fn rand_num(min: u8, max: u8) -> (r: u8)
    ensures
        max > min ==> min <= r <= max,
        max <= min ==> r == max,
{
    if max > min {
        gen_range_u8(min, max)
    } else {
        max
    }
}

/// Whether `x` is one of the values that quantized range sampling can give
/// on `(min, max)` at the catalog's granularity.
pub open spec fn is_sample(min: Fixed, max: Fixed, x: Fixed) -> bool {
    if max@ - min@ > STEP {
        quantized_candidates(min@, max@, STEP as int).contains(x@)
    } else {
        x == max
    }
}

/// Every choice of quantized range sampling is one of the candidates.
pub proof fn lemma_choice_is_candidate(min: int, max: int, step: int, draw: int)
    requires
        step > 0,
        max - min > step,
        draw >= 0,
    ensures
        quantized_candidates(min, max, step).contains(quantized_choice(min, max, step, draw)),
{
    let n = quantized_count(min, max, step);
    lemma_quantized_at_bounds(min, max, step, 0);
    assert((max - min) / step >= 0) by (nonlinear_arith)
        requires
            max - min >= 0,
            step > 0,
    ;
    let i = draw % n;
    assert(0 <= i < n) by (nonlinear_arith)
        requires
            n > 0,
            draw >= 0,
            i == draw % n,
    ;
    assert(quantized_candidates(min, max, step)[i] == quantized_choice(min, max, step, draw));
}

/// A value between `min` and `max` by quantized range sampling at the
/// catalog's granularity: one of `max`, `max - 0.05`, ... down to `min`, and
/// `min` itself; on a range no wider than 0.05 it is `max`.
pub fn rand_fixed(min: Fixed, max: Fixed) -> (r: Fixed)
    ensures
        is_sample(min, max, r),
        max@ > min@ ==> min@ <= r@ <= max@,
{
    let wide: bool = max.micros as i128 - min.micros as i128 > STEP as i128;
    if wide {
        let draw: usize = random_usize();
        proof {
            lemma_choice_is_candidate(min@, max@, STEP as int, draw as int);
            lemma_quantized_range(min@, max@, STEP as int, draw as int);
        }
        quantized_pick(min, max, STEP, draw)
    } else {
        max
    }
}

} // verus!
