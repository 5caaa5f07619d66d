//! The sampler for machines without the device: a pseudo-random raw value in
//! place of a conversion result.

use vstd::prelude::*;

verus! {

/// Synthetic samples lie strictly between minus and plus this bound.
pub const SYNTHETIC_BOUND: i16 = 20000;

/// Calls `rand::random::<i16>()`, which draws from the thread's generator.
/// Any sixteen-bit value may come back, so the contract promises nothing.
#[verifier::external_body]
fn random_i16() -> (drawn: i16) {
    rand::random::<i16>()
}

/// The remainder of a drawn value by the bound, with the sign of the value.
pub open spec fn reduced(drawn: i16) -> int {
    if drawn >= 0 {
        drawn as int % 20000
    } else {
        -((-drawn) % 20000)
    }
}

/// Brings a drawn value into the synthetic range: its remainder by the bound,
/// truncated towards zero.
pub fn reduce(drawn: i16) -> (raw: i16)
    ensures
        raw == reduced(drawn),
        -SYNTHETIC_BOUND < raw < SYNTHETIC_BOUND,
{
    let wide: i32 = drawn as i32;
    if wide >= 0 {
        (wide % 20000) as i16
    } else {
        let magnitude: i32 = -wide;
        (-(magnitude % 20000)) as i16
    }
}

/// One synthetic sample. Its value is not determined; its range is.
pub fn synthetic_sample() -> (raw: i16)
    ensures
        -SYNTHETIC_BOUND < raw < SYNTHETIC_BOUND,
{
    reduce(random_i16())
}

} // verus!
