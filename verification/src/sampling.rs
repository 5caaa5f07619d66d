//! The decisions of one sampling cycle: what to publish, whether to alert,
//! and how long to wait before the next cycle.

use vstd::prelude::*;
use crate::codec::ConfigFields;
use crate::scale::{picovolts_spec, FIXED_LSB_PICOVOLTS};
use crate::text::{decimal, render};
use crate::web::AdcValue;

verus! {

/// Pause between two cycles, in milliseconds.
pub const CYCLE_MILLIS: u64 = 100;

/// Why a cycle has no sample.
#[derive(Clone, Copy, Debug, PartialEq, Eq, Structural)]
pub enum BusError {
    /// The bus could not be opened.
    Unavailable,
    /// The device did not acknowledge its address or a transfer.
    NotAcknowledged,
    /// Fewer bytes than a conversion result came back.
    ShortRead,
}

/// What the loop does at the end of one cycle.
#[derive(Debug)]
pub struct CyclePlan {
    /// The message to hand to the alert dispatcher, if any.
    pub alert: Option<String>,
    /// The sample to publish, if any.
    pub publish: Option<AdcValue>,
    /// How long to wait before the next cycle, in milliseconds.
    pub delay_millis: u64,
}

/// The sample made of a raw result at the fixed range.
pub open spec fn sample_spec(raw: i16, threshold: i32, timestamp: u64) -> AdcValue {
    AdcValue {
        raw_value: raw,
        picovolts: (raw * FIXED_LSB_PICOVOLTS) as i64,
        timestamp,
        threshold,
    }
}

/// Whether a raw result calls for an alert: it lies strictly above the threshold.
pub open spec fn exceeds(raw: i16, threshold: i32) -> bool {
    raw > threshold
}

/// The text of an alert: the threshold, then the raw value that exceeded it.
pub open spec fn alert_text(threshold: i32, raw: i16) -> Seq<char> {
    "Wert höher als "@ + decimal(threshold as int) + ": "@ + decimal(raw as int)
}

/// Builds the sample for a raw result: its voltage at the fixed range, the
/// time it was taken and the threshold then in force.
pub fn make_sample(raw: i16, threshold: i32, timestamp: u64) -> (sample: AdcValue)
    ensures
        sample == sample_spec(raw, threshold, timestamp),
        sample.picovolts == picovolts_spec(raw, ConfigFields::fixed_spec().gain),
{
    let wide: i64 = raw as i64;
    AdcValue { raw_value: raw, picovolts: wide * FIXED_LSB_PICOVOLTS, timestamp, threshold }
}

/// Writes the alert message for a raw value above the threshold.
pub fn alert_message(threshold: i32, raw: i16) -> (message: String)
    ensures
        message@ == alert_text(threshold, raw),
{
    let mut message = String::from_str("Wert höher als ");
    message.append(render(threshold as i64).as_str());
    message.append(": ");
    message.append(render(raw as i64).as_str());
    message
}

/// Decides one cycle from what the bus returned, the threshold read at that
/// moment and the time. A failed read publishes nothing and alerts nobody; a
/// sample is always published, and is announced exactly when it exceeds the
/// threshold. The pause is the same either way.
pub fn plan_cycle(outcome: Result<i16, BusError>, threshold: i32, timestamp: u64) -> (plan:
    CyclePlan)
    ensures
        plan.delay_millis == CYCLE_MILLIS,
        outcome is Err ==> plan.publish is None && plan.alert is None,
        outcome matches Ok(raw) ==> {
            &&& plan.publish == Some(sample_spec(raw, threshold, timestamp))
            &&& plan.alert is Some <==> exceeds(raw, threshold)
            &&& plan.alert matches Some(message) ==> message@ == alert_text(threshold, raw)
        },
{
    match outcome {
        Err(_) => CyclePlan { alert: None, publish: None, delay_millis: CYCLE_MILLIS },
        Ok(raw) => {
            let wide: i32 = raw as i32;
            let alert = if wide > threshold {
                Some(alert_message(threshold, raw))
            } else {
                None
            };
            CyclePlan {
                alert,
                publish: Some(make_sample(raw, threshold, timestamp)),
                delay_millis: CYCLE_MILLIS,
            }
        },
    }
}

} // verus!
