//! Fan-out of samples: one publisher, any number of subscribers, a bounded
//! backlog.
//!
//! The channel numbers the samples in the order in which they are published
//! and keeps the newest ones, up to its capacity. A subscription is a cursor:
//! the number of the next sample that its holder is to receive. The publisher
//! never looks at a cursor, so no subscriber can hold it up; a subscriber that
//! falls behind the backlog is told how many samples it lost and goes on with
//! the oldest one that is still kept.

use vstd::prelude::*;
use crate::web::AdcValue;

verus! {

/// What one attempt to receive gives a subscriber.
#[derive(Clone, Copy, Debug, PartialEq, Eq, Structural)]
pub enum Delivery {
    /// The next sample in publication order.
    Sample(AdcValue),
    /// Nothing was published since the last sample received.
    Empty,
    /// The subscriber fell behind the backlog and lost this many samples.
    Lagged(u64),
}

/// Number of the oldest sample still kept, once `len` samples were published.
pub open spec fn oldest(len: nat, capacity: nat) -> nat {
    if len > capacity {
        (len - capacity) as nat
    } else {
        0
    }
}

/// The samples still kept: the newest ones, at most `capacity` of them.
pub open spec fn retained(history: Seq<AdcValue>, capacity: nat) -> Seq<AdcValue> {
    history.subrange(oldest(history.len(), capacity) as int, history.len() as int)
}

/// What a subscriber at `cursor` receives from a channel with this history.
pub open spec fn delivery(history: Seq<AdcValue>, capacity: nat, cursor: nat) -> Delivery {
    if cursor >= history.len() {
        Delivery::Empty
    } else if cursor < oldest(history.len(), capacity) {
        Delivery::Lagged((oldest(history.len(), capacity) - cursor) as u64)
    } else {
        Delivery::Sample(history[cursor as int])
    }
}

/// Where the cursor stands after that attempt.
pub open spec fn advanced(history: Seq<AdcValue>, capacity: nat, cursor: nat) -> nat {
    if cursor >= history.len() {
        cursor
    } else if cursor < oldest(history.len(), capacity) {
        oldest(history.len(), capacity)
    } else {
        cursor + 1
    }
}

/// Where a cursor stands after a number of attempts to receive.
pub open spec fn advanced_by(
    history: Seq<AdcValue>,
    capacity: nat,
    cursor: nat,
    attempts: nat,
) -> nat
    decreases attempts,
{
    if attempts == 0 {
        cursor
    } else {
        advanced(history, capacity, advanced_by(history, capacity, cursor, (attempts - 1) as nat))
    }
}

/// The cursor of one subscriber.
#[derive(Debug)]
pub struct Subscription {
    next: u64,
}

impl View for Subscription {
    type V = nat;

    closed spec fn view(&self) -> nat {
        self.next as nat
    }
}

impl Subscription {
    /// Number of the next sample that this subscriber is to receive.
    pub fn position(&self) -> (position: u64)
        ensures
            position == self@,
    {
        self.next
    }
}

/// The broadcast channel.
pub struct Broadcast {
    limit: usize,
    sent: u64,
    backlog: Vec<AdcValue>,
    history: Ghost<Seq<AdcValue>>,
}

impl Broadcast {
    #[verifier::type_invariant]
    spec fn well_formed(&self) -> bool {
        &&& self.limit > 0
        &&& self.sent == self.history@.len()
        &&& self.backlog@ =~= retained(self.history@, self.limit as nat)
    }

    /// Every sample ever published, in publication order.
    pub closed spec fn history(&self) -> Seq<AdcValue> {
        self.history@
    }

    /// The most samples that the channel keeps for subscribers that lag.
    pub closed spec fn capacity_spec(&self) -> nat {
        self.limit as nat
    }

    /// An empty channel that keeps up to `capacity` samples.
    pub fn new(capacity: usize) -> (channel: Broadcast)
        requires
            capacity > 0,
        ensures
            channel.history() == Seq::<AdcValue>::empty(),
            channel.capacity_spec() == capacity,
    {
        Broadcast { limit: capacity, sent: 0, backlog: Vec::new(), history: Ghost(Seq::empty()) }
    }

    pub fn capacity(&self) -> (capacity: usize)
        ensures
            capacity == self.capacity_spec(),
            capacity > 0,
    {
        proof {
            use_type_invariant(self);
        }
        self.limit
    }

    /// How many samples were published so far.
    pub fn total(&self) -> (total: u64)
        ensures
            total == self.history().len(),
    {
        proof {
            use_type_invariant(self);
        }
        self.sent
    }

    /// How many samples the channel keeps at the moment.
    pub fn backlog_len(&self) -> (len: usize)
        ensures
            len == retained(self.history(), self.capacity_spec()).len(),
            len <= self.capacity_spec(),
            len <= self.history().len(),
    {
        proof {
            use_type_invariant(self);
        }
        self.backlog.len()
    }

    /// Publishes a sample to every subscriber, present or not. The call does
    /// not depend on any subscription; when the backlog is full the oldest
    /// kept sample gives way.
    pub fn publish(&mut self, value: AdcValue)
        requires
            old(self).history().len() < u64::MAX,
        ensures
            final(self).history() == old(self).history().push(value),
            final(self).capacity_spec() == old(self).capacity_spec(),
    {
        proof {
            use_type_invariant(&*self);
        }
        let mut current = Broadcast::new(1);
        core::mem::swap(self, &mut current);
        let Broadcast { limit, sent, mut backlog, history } = current;
        if backlog.len() == limit {
            backlog.remove(0);
        }
        backlog.push(value);
        *self = Broadcast { limit, sent: sent + 1, backlog, history: Ghost(history@.push(value)) };
    }

    /// A subscription that starts with the next sample to be published:
    /// nothing published before is ever delivered to it.
    pub fn subscribe(&self) -> (subscription: Subscription)
        ensures
            subscription@ == self.history().len(),
    {
        proof {
            use_type_invariant(self);
        }
        Subscription { next: self.sent }
    }

    /// Gives a subscriber what is next for it, and moves its cursor.
    pub fn receive(&self, subscription: &mut Subscription) -> (received: Delivery)
        ensures
            received == delivery(self.history(), self.capacity_spec(), old(subscription)@),
            final(subscription)@ == advanced(
                self.history(),
                self.capacity_spec(),
                old(subscription)@,
            ),
    {
        proof {
            use_type_invariant(self);
        }
        let kept: u64 = self.backlog.len() as u64;
        let first: u64 = self.sent - kept;
        if subscription.next >= self.sent {
            Delivery::Empty
        } else if subscription.next < first {
            let lost: u64 = first - subscription.next;
            subscription.next = first;
            Delivery::Lagged(lost)
        } else {
            let index: usize = (subscription.next - first) as usize;
            let value = self.backlog[index];
            subscription.next = subscription.next + 1;
            Delivery::Sample(value)
        }
    }
}

/// Fan-out: a subscriber that has received everything published so far
/// receives the next published sample, whoever else is subscribed, and then
/// finds the channel empty. Any two such subscribers so receive the same
/// sample.
pub proof fn fan_out_delivers_to_all(history: Seq<AdcValue>, capacity: nat, value: AdcValue)
    requires
        capacity > 0,
    ensures
        delivery(history.push(value), capacity, history.len()) == Delivery::Sample(value),
        advanced(history.push(value), capacity, history.len()) == history.len() + 1,
        delivery(history.push(value), capacity, history.len() + 1) == Delivery::Empty,
{
}

/// No replay: a cursor never moves back, and a sample delivered at a cursor is
/// the one published under that number. A subscriber attached after a sample
/// was published starts behind it, so it never receives that sample.
pub proof fn no_replay(history: Seq<AdcValue>, capacity: nat, cursor: nat)
    ensures
        advanced(history, capacity, cursor) >= cursor,
        advanced(history, capacity, cursor) <= history.len() || advanced(history, capacity, cursor)
            == cursor,
        delivery(history, capacity, cursor) is Sample ==> {
            &&& cursor < history.len()
            &&& delivery(history, capacity, cursor) == Delivery::Sample(history[cursor as int])
            &&& advanced(history, capacity, cursor) == cursor + 1
        },
{
}

/// Order: a subscriber that is within the backlog receives the samples from
/// its cursor on one by one, in publication order, none twice and none left
/// out. Its attempt number `count`, counted from zero, gives the sample
/// published under the number `cursor + count`.
pub proof fn delivery_in_order(history: Seq<AdcValue>, capacity: nat, cursor: nat, count: nat)
    requires
        oldest(history.len(), capacity) <= cursor,
        cursor + count < history.len(),
    ensures
        advanced_by(history, capacity, cursor, count) == cursor + count,
        delivery(history, capacity, advanced_by(history, capacity, cursor, count))
            == Delivery::Sample(history[(cursor + count) as int]),
    decreases count,
{
    if count > 0 {
        delivery_in_order(history, capacity, cursor, (count - 1) as nat);
    }
}

/// Slow subscribers: one that is more than the backlog behind is told the
/// number of samples it lost, and is moved to the oldest sample still kept,
/// which it receives next. The gap is the only trace of its delay.
pub proof fn slow_subscriber_skips(history: Seq<AdcValue>, capacity: nat, cursor: nat)
    requires
        capacity > 0,
        cursor + capacity < history.len() <= u64::MAX,
    ensures
        delivery(history, capacity, cursor) == Delivery::Lagged(
            (history.len() - capacity - cursor) as u64,
        ),
        advanced(history, capacity, cursor) == history.len() - capacity,
        delivery(history, capacity, advanced(history, capacity, cursor)) == Delivery::Sample(
            history[history.len() - capacity],
        ),
{
}

/// The backlog is bounded: whatever was published, at most `capacity` samples
/// are kept, and they are the newest ones in publication order.
pub proof fn backlog_is_bounded(history: Seq<AdcValue>, capacity: nat)
    ensures
        retained(history, capacity).len() <= capacity,
        retained(history, capacity).len() <= history.len(),
        forall|i: int|
            0 <= i < retained(history, capacity).len() ==> #[trigger] retained(history, capacity)[i]
                == history[oldest(history.len(), capacity) + i],
{
}

} // verus!
