//! What the gain and the data rate mean in physical units: the size of one
//! step of the result, and how long a conversion takes.
//!
//! Voltages are integers in picovolts, the coarsest decimal unit in which the
//! step of every range is whole.

use vstd::prelude::*;
use crate::fields::{DataRate, Gain};

verus! {

/// Picovolts per step at the fixed range of +/- 4.096 V: 0.000125 V.
pub const FIXED_LSB_PICOVOLTS: i64 = 125_000_000;

/// Full-scale input voltage of a range, in millivolts.
pub open spec fn full_scale_millivolts_spec(gain: Gain) -> int {
    match gain {
        Gain::Range6144 => 6144,
        Gain::Range4096 => 4096,
        Gain::Range2048 => 2048,
        Gain::Range1024 => 1024,
        Gain::Range512 => 512,
        Gain::Range256 => 256,
        Gain::Range256B => 256,
        Gain::Range256C => 256,
    }
}

/// Size of one step of the result in picovolts: the full scale spread over
/// the 32768 steps of the positive half of a sixteen-bit result.
pub open spec fn lsb_picovolts_spec(gain: Gain) -> int {
    full_scale_millivolts_spec(gain) * 1_000_000_000 / 32768
}

/// The voltage that a raw result stands for, in picovolts.
pub open spec fn picovolts_spec(raw: i16, gain: Gain) -> int {
    raw * lsb_picovolts_spec(gain)
}

/// Conversions per second of a data rate preset.
pub open spec fn samples_per_second_spec(rate: DataRate) -> int {
    match rate {
        DataRate::Sps8 => 8,
        DataRate::Sps16 => 16,
        DataRate::Sps32 => 32,
        DataRate::Sps64 => 64,
        DataRate::Sps128 => 128,
        DataRate::Sps250 => 250,
        DataRate::Sps475 => 475,
        DataRate::Sps860 => 860,
    }
}

/// Whether a delay in milliseconds covers one whole conversion at a rate.
pub open spec fn covers_conversion(millis: int, rate: DataRate) -> bool {
    millis * samples_per_second_spec(rate) >= 1000
}

pub fn full_scale_millivolts(gain: Gain) -> (millivolts: u16)
    ensures
        millivolts == full_scale_millivolts_spec(gain),
{
    match gain {
        Gain::Range6144 => 6144,
        Gain::Range4096 => 4096,
        Gain::Range2048 => 2048,
        Gain::Range1024 => 1024,
        Gain::Range512 => 512,
        Gain::Range256 => 256,
        Gain::Range256B => 256,
        Gain::Range256C => 256,
    }
}

/// Size of one step in picovolts. It is exact: no range loses a fraction.
pub fn lsb_picovolts(gain: Gain) -> (step: i64)
    ensures
        step == lsb_picovolts_spec(gain),
        step * 32768 == full_scale_millivolts_spec(gain) * 1_000_000_000,
        0 < step <= 187_500_000,
        gain == Gain::Range4096 ==> step == FIXED_LSB_PICOVOLTS,
{
    let millivolts: i64 = full_scale_millivolts(gain) as i64;
    millivolts * 1_000_000_000 / 32768
}

/// The voltage that a raw result stands for at a range, in picovolts.
pub fn picovolts(raw: i16, gain: Gain) -> (voltage: i64)
    ensures
        voltage == picovolts_spec(raw, gain),
        voltage == raw * lsb_picovolts_spec(gain),
{
    let step: i64 = lsb_picovolts(gain);
    let wide: i64 = raw as i64;
    assert(-32768 * 187_500_000 <= wide * step <= 32767 * 187_500_000) by (nonlinear_arith)
        requires
            -32768 <= wide <= 32767,
            0 < step <= 187_500_000,
    ;
    wide * step
}

pub fn samples_per_second(rate: DataRate) -> (count: u16)
    ensures
        count == samples_per_second_spec(rate),
{
    match rate {
        DataRate::Sps8 => 8,
        DataRate::Sps16 => 16,
        DataRate::Sps32 => 32,
        DataRate::Sps64 => 64,
        DataRate::Sps128 => 128,
        DataRate::Sps250 => 250,
        DataRate::Sps475 => 475,
        DataRate::Sps860 => 860,
    }
}

/// The least whole number of milliseconds that covers one conversion at a
/// rate: a thousand over the rate, rounded up.
pub open spec fn settle_millis_spec(rate: DataRate) -> int {
    (1000 + samples_per_second_spec(rate) - 1) / samples_per_second_spec(rate)
}

/// The settle delay covers one conversion, and no shorter whole number of
/// milliseconds does.
pub proof fn settle_delay_is_least(rate: DataRate)
    ensures
        covers_conversion(settle_millis_spec(rate), rate),
        !covers_conversion(settle_millis_spec(rate) - 1, rate),
        settle_millis_spec(DataRate::Sps128) == 8,
{
    match rate {
        DataRate::Sps8 => {},
        DataRate::Sps16 => {},
        DataRate::Sps32 => {},
        DataRate::Sps64 => {},
        DataRate::Sps128 => {},
        DataRate::Sps250 => {},
        DataRate::Sps475 => {},
        DataRate::Sps860 => {},
    }
}

/// The settle delay after a configuration write: the least whole number of
/// milliseconds that covers one conversion at the rate.
pub fn settle_millis(rate: DataRate) -> (millis: u64)
    ensures
        millis == settle_millis_spec(rate),
        covers_conversion(millis as int, rate),
        !covers_conversion(millis - 1, rate),
        rate == DataRate::Sps128 ==> millis == 8,
{
    let per_second: u64 = samples_per_second(rate) as u64;
    (1000 + per_second - 1) / per_second
}

} // verus!
