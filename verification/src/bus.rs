//! The bus transaction that takes one sample, as a state machine.
//!
//! The machine decides; its driver acts. The driver performs each action on
//! the bus, reports how it went, and is told what to do next, until the
//! machine finishes with a raw sample or an error. The sequence is fixed:
//! open the device, write the configuration word, wait out the conversion,
//! read the result.

use vstd::prelude::*;
use crate::codec::{
    decode_sample, encode_word_to_bytes, sample_value, word_bytes, ConfigFields, ADDR_ADS115,
    REG_CONFIGURATION, REG_CONVERSION,
};
use crate::sampling::BusError;
use crate::scale::{settle_millis, settle_millis_spec};

verus! {

/// The action that the driver is carrying out.
#[derive(Clone, Copy, Debug, PartialEq, Eq, Structural)]
pub enum Phase {
    Opening,
    Writing,
    Settling,
    Reading,
}

/// What the driver is to do on the bus.
#[derive(Clone, Copy, Debug, PartialEq, Eq)]
pub enum Action {
    /// Open the bus and address the device.
    Open { address: u16 },
    /// Write two bytes to a register.
    Write { register: u8, bytes: [u8; 2] },
    /// Suspend for at least this many milliseconds.
    Wait { millis: u64 },
    /// Read this many bytes from a register.
    Read { register: u8, count: usize },
}

/// How the last action went.
#[derive(Debug)]
pub enum Outcome {
    /// The action was carried out and returned nothing.
    Completed,
    /// The bytes that a read returned.
    Data(Vec<u8>),
    /// The action failed.
    Failed,
}

/// The machine's answer to an outcome.
#[derive(Clone, Copy, Debug, PartialEq, Eq)]
pub enum Step {
    /// The transaction goes on with this action.
    Continue(Phase, Action),
    /// The transaction is over.
    Finished(Result<i16, BusError>),
}

/// The error with which a failure ends the transaction in each phase.
pub open spec fn failure_of(phase: Phase) -> BusError {
    match phase {
        Phase::Opening => BusError::Unavailable,
        Phase::Writing => BusError::NotAcknowledged,
        Phase::Settling => BusError::Unavailable,
        Phase::Reading => BusError::NotAcknowledged,
    }
}

/// How a read ends the transaction: with the sample in the first two bytes,
/// or as a short read where fewer than two came back.
pub open spec fn read_result(bytes: Seq<u8>) -> Result<i16, BusError> {
    if bytes.len() >= 2 {
        Ok(sample_value([bytes[0], bytes[1]]) as i16)
    } else {
        Err(BusError::ShortRead)
    }
}

/// The first action of a transaction: address the device.
pub fn begin() -> (first: (Phase, Action))
    ensures
        first == (Phase::Opening, Action::Open { address: ADDR_ADS115 }),
{
    (Phase::Opening, Action::Open { address: ADDR_ADS115 })
}

/// Ends a transaction with what a read returned.
pub fn finish_read(bytes: &[u8]) -> (result: Result<i16, BusError>)
    ensures
        result == read_result(bytes@),
{
    if bytes.len() >= 2 {
        Ok(decode_sample([bytes[0], bytes[1]]))
    } else {
        Err(BusError::ShortRead)
    }
}

/// The next step of a transaction that writes `fields`, given the phase that
/// the driver was in and how its action went.
///
/// A failure ends the transaction with the error of its phase. Otherwise the
/// open is followed by the write of the configuration word to the
/// configuration register, the write by the settle delay of the configured
/// rate, the delay by a read of two bytes from the conversion register, and
/// the read ends the transaction with what it returned.
pub open spec fn next_step(phase: Phase, fields: ConfigFields, outcome: Outcome) -> Step {
    match outcome {
        Outcome::Failed => Step::Finished(Err(failure_of(phase))),
        _ => match phase {
            Phase::Opening => Step::Continue(
                Phase::Writing,
                Action::Write {
                    register: REG_CONFIGURATION,
                    bytes: word_bytes(fields.word_spec()),
                },
            ),
            Phase::Writing => Step::Continue(
                Phase::Settling,
                Action::Wait { millis: settle_millis_spec(fields.rate) as u64 },
            ),
            Phase::Settling => Step::Continue(
                Phase::Reading,
                Action::Read { register: REG_CONVERSION, count: 2 },
            ),
            Phase::Reading => match outcome {
                Outcome::Data(bytes) => Step::Finished(read_result(bytes@)),
                _ => Step::Finished(Err(BusError::ShortRead)),
            },
        },
    }
}

/// Decides the next step of a transaction from the phase that the driver was
/// in and how its action went.
pub fn step(phase: Phase, fields: ConfigFields, outcome: &Outcome) -> (next: Step)
    ensures
        next == next_step(phase, fields, *outcome),
{
    match outcome {
        Outcome::Failed => {
            let error = match phase {
                Phase::Opening => BusError::Unavailable,
                Phase::Writing => BusError::NotAcknowledged,
                Phase::Settling => BusError::Unavailable,
                Phase::Reading => BusError::NotAcknowledged,
            };
            Step::Finished(Err(error))
        },
        _ => {
            match phase {
                Phase::Opening => Step::Continue(
                    Phase::Writing,
                    Action::Write {
                        register: REG_CONFIGURATION,
                        bytes: encode_word_to_bytes(fields.word()),
                    },
                ),
                Phase::Writing => Step::Continue(
                    Phase::Settling,
                    Action::Wait { millis: settle_millis(fields.rate) },
                ),
                Phase::Settling => Step::Continue(
                    Phase::Reading,
                    Action::Read { register: REG_CONVERSION, count: 2 },
                ),
                Phase::Reading => {
                    match outcome {
                        Outcome::Data(bytes) => Step::Finished(finish_read(bytes.as_slice())),
                        _ => Step::Finished(Err(BusError::ShortRead)),
                    }
                },
            }
        },
    }
}

/// A transaction that meets no failure takes its four actions in order and
/// ends with the sample that the read returned.
pub proof fn transaction_sequence(fields: ConfigFields, bytes: Vec<u8>)
    requires
        bytes@.len() >= 2,
    ensures
        next_step(Phase::Opening, fields, Outcome::Completed) == Step::Continue(
            Phase::Writing,
            Action::Write { register: REG_CONFIGURATION, bytes: word_bytes(fields.word_spec()) },
        ),
        next_step(Phase::Writing, fields, Outcome::Completed) == Step::Continue(
            Phase::Settling,
            Action::Wait { millis: settle_millis_spec(fields.rate) as u64 },
        ),
        crate::scale::covers_conversion(settle_millis_spec(fields.rate), fields.rate),
        next_step(Phase::Settling, fields, Outcome::Completed) == Step::Continue(
            Phase::Reading,
            Action::Read { register: REG_CONVERSION, count: 2 },
        ),
        next_step(Phase::Reading, fields, Outcome::Data(bytes)) == Step::Finished(
            Ok(sample_value([bytes@[0], bytes@[1]]) as i16),
        ),
{
    crate::scale::settle_delay_is_least(fields.rate);
}

} // verus!
