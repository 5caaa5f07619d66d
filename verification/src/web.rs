//! The state that the sampling loop shares with request handlers, and the
//! values that cross that boundary.

use vstd::prelude::*;
use crate::fanout::{advanced, delivery, Broadcast, Delivery, Subscription};

verus! {

/// The threshold at start-up, in raw steps.
pub const DEFAULT_THRESHOLD: i32 = 10000;

/// How many samples the channel keeps for subscribers that lag.
pub const BACKLOG_CAPACITY: usize = 100;

/// One published sample.
#[derive(Clone, Copy, Debug, PartialEq, Eq, Structural)]
pub struct AdcValue {
    /// The conversion result as read from the device.
    pub raw_value: i16,
    /// The voltage it stands for, in picovolts.
    pub picovolts: i64,
    /// Seconds since the epoch at which the sample was taken.
    pub timestamp: u64,
    /// The threshold that was in force when the sample was taken.
    pub threshold: i32,
}

/// A request to replace the threshold.
#[derive(Clone, Copy, Debug, PartialEq, Eq, Structural)]
pub struct ThresholdRequest {
    pub value: i32,
}

/// The threshold in force, as reported to a client.
#[derive(Clone, Copy, Debug, PartialEq, Eq, Structural)]
pub struct ThresholdResponse {
    pub threshold: i32,
}

/// What a live stream of samples does next for its client.
#[derive(Clone, Copy, Debug, PartialEq, Eq, Structural)]
pub enum StreamStep {
    /// Send this sample to the client.
    Emit(AdcValue),
    /// Nothing new: wait for the next publication.
    Wait,
    /// The client fell behind the backlog: the stream ends.
    Close,
}

/// The step that a stream takes on what its subscription received.
pub open spec fn stream_step(received: Delivery) -> StreamStep {
    match received {
        Delivery::Sample(value) => StreamStep::Emit(value),
        Delivery::Empty => StreamStep::Wait,
        Delivery::Lagged(_) => StreamStep::Close,
    }
}

/// The threshold and the channel of samples. Readers borrow it shared, the
/// writer of the threshold and the publisher borrow it exclusively.
pub struct AppState {
    pub tx: Broadcast,
    pub threshold: i32,
}

impl AppState {
    /// The state at start-up: the default threshold and an empty channel.
    pub fn new() -> (state: AppState)
        ensures
            state.threshold == DEFAULT_THRESHOLD,
            state.tx.history() == Seq::<AdcValue>::empty(),
            state.tx.capacity_spec() == BACKLOG_CAPACITY,
    {
        AppState { tx: Broadcast::new(BACKLOG_CAPACITY), threshold: DEFAULT_THRESHOLD }
    }

    /// The state after the threshold was replaced.
    pub open spec fn with_threshold(self, new: i32) -> AppState {
        AppState { tx: self.tx, threshold: new }
    }

    pub fn current_threshold(&self) -> (threshold: i32)
        ensures
            threshold == self.threshold,
    {
        self.threshold
    }

    /// Replaces the threshold by any value, unchecked; the channel is left alone.
    pub fn set_threshold(&mut self, new: i32)
        ensures
            *final(self) == old(self).with_threshold(new),
    {
        self.threshold = new;
    }

    /// A subscription to the samples published from now on.
    pub fn subscribe(&self) -> (subscription: Subscription)
        ensures
            subscription@ == self.tx.history().len(),
    {
        self.tx.subscribe()
    }

    /// Publishes a sample on the channel; the threshold is left alone.
    pub fn publish(&mut self, value: AdcValue)
        requires
            old(self).tx.history().len() < u64::MAX,
        ensures
            final(self).tx.history() == old(self).tx.history().push(value),
            final(self).tx.capacity_spec() == old(self).tx.capacity_spec(),
            final(self).threshold == old(self).threshold,
    {
        self.tx.publish(value);
    }

    /// The next step of a client's live stream: the sample that is next for
    /// its subscription, a wait where there is none yet, or the end of the
    /// stream where the client lost samples.
    pub fn next_event(&self, subscription: &mut Subscription) -> (step: StreamStep)
        ensures
            step == stream_step(
                delivery(self.tx.history(), self.tx.capacity_spec(), old(subscription)@),
            ),
            final(subscription)@ == advanced(
                self.tx.history(),
                self.tx.capacity_spec(),
                old(subscription)@,
            ),
    {
        match self.tx.receive(subscription) {
            Delivery::Sample(value) => StreamStep::Emit(value),
            Delivery::Empty => StreamStep::Wait,
            Delivery::Lagged(_) => StreamStep::Close,
        }
    }

    /// Reading after a write gives the value written, whatever it is.
    pub proof fn threshold_round_trip(self, new: i32)
        ensures
            self.with_threshold(new).threshold == new,
            self.with_threshold(new).tx == self.tx,
    {
    }
}

/// Reports the threshold in force.
pub fn get_threshold(state: &AppState) -> (response: ThresholdResponse)
    ensures
        response.threshold == state.threshold,
{
    ThresholdResponse { threshold: state.current_threshold() }
}

/// Replaces the threshold by the requested value and reports the new one.
pub fn set_threshold(state: &mut AppState, request: ThresholdRequest) -> (response:
    ThresholdResponse)
    ensures
        *final(state) == old(state).with_threshold(request.value),
        response.threshold == request.value,
{
    state.set_threshold(request.value);
    ThresholdResponse { threshold: state.current_threshold() }
}

} // verus!
