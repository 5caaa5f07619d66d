//! Sampling and alerting engine for a bus-attached sixteen-bit converter:
//! the register codec, the bus protocol, the per-cycle decisions, the shared
//! threshold and the fan-out of samples to subscribers.

pub mod fields;
pub mod codec;
pub mod options;
pub mod scale;
pub mod fanout;
pub mod web;
pub mod sampling;
pub mod text;
pub mod bus;
pub mod alert;
pub mod synthetic;
