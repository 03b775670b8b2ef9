//! The relay channel: the one path by which background activities reach the
//! coordinator.
//!
//! Any number of producers enqueue messages; one consumer takes out, on each
//! tick of its control loop, everything that has arrived. The channel is
//! unbounded, so enqueueing always succeeds, and it never reorders: what was
//! enqueued first is taken out first. Sharing the channel between threads is
//! the business of whoever owns it.

use std::collections::VecDeque;
use vstd::prelude::*;

verus! {

/// An unbounded first-in, first-out queue of messages.
///
/// The view of a channel is the sequence of messages that wait in it, oldest
/// first.
pub struct RelayChannel<M> {
    queue: VecDeque<M>,
}

impl<M> View for RelayChannel<M> {
    type V = Seq<M>;

    closed spec fn view(&self) -> Seq<M> {
        self.queue@
    }
}

impl<M> RelayChannel<M> {
    /// An empty channel.
    pub fn new() -> (channel: Self)
        ensures
            channel@ == Seq::<M>::empty(),
    {
        RelayChannel { queue: VecDeque::new() }
    }

    /// Enqueues a message behind everything that waits already.
    pub fn send(&mut self, message: M)
        ensures
            final(self)@ == old(self)@.push(message),
    {
        self.queue.push_back(message);
    }

    /// Number of messages that wait.
    pub fn pending(&self) -> (n: usize)
        ensures
            n == self@.len(),
    {
        self.queue.len()
    }

    /// Whether no message waits.
    pub fn is_empty(&self) -> (empty: bool)
        ensures
            empty <==> self@.len() == 0,
    {
        self.queue.len() == 0
    }

    /// Takes out the oldest waiting message, without ever blocking: `None`
    /// where nothing waits.
    pub fn try_recv(&mut self) -> (message: Option<M>)
        ensures
            match message {
                Some(m) => old(self)@.len() > 0 && m == old(self)@[0] && final(self)@ == old(
                    self,
                )@.skip(1),
                None => old(self)@.len() == 0 && final(self)@ == old(self)@,
            },
    {
        self.queue.pop_front()
    }

    /// Takes out the whole backlog: every waiting message, oldest first. The
    /// channel is empty afterwards.
    pub fn drain(&mut self) -> (backlog: Vec<M>)
        ensures
            backlog@ == old(self)@,
            final(self)@ == Seq::<M>::empty(),
    {
        let mut backlog: Vec<M> = Vec::new();
        loop
            invariant
                backlog@ + self@ == old(self)@,
            ensures
                backlog@ == old(self)@,
                self@ == Seq::<M>::empty(),
            decreases self@.len(),
        {
            match self.try_recv() {
                Some(message) => {
                    backlog.push(message);
                },
                None => {
                    break;
                },
            }
        }
        backlog
    }
}

/// One thing that happens to a relay channel.
pub enum RelayEvent<M> {
    /// A producer enqueues a message.
    Send(M),
    /// The coordinator ticks and takes out the backlog.
    Tick,
}

/// A relay channel seen from outside: what waits in it and what the
/// coordinator has taken out so far.
pub struct Relay<M> {
    /// The waiting messages, oldest first.
    pub waiting: Seq<M>,
    /// Everything taken out so far, in the order it was taken out.
    pub delivered: Seq<M>,
}

/// The messages that a run of events enqueues, in order.
pub open spec fn enqueued<M>(events: Seq<RelayEvent<M>>) -> Seq<M>
    decreases events.len(),
{
    if events.len() == 0 {
        Seq::empty()
    } else {
        let before = enqueued(events.drop_last());
        match events.last() {
            RelayEvent::Send(message) => before.push(message),
            RelayEvent::Tick => before,
        }
    }
}

impl<M> Relay<M> {
    /// A fresh channel: nothing waits, nothing was taken out.
    pub open spec fn fresh() -> Relay<M> {
        Relay { waiting: Seq::empty(), delivered: Seq::empty() }
    }

    /// The channel after one event.
    pub open spec fn step(self, event: RelayEvent<M>) -> Relay<M> {
        match event {
            RelayEvent::Send(message) => Relay { waiting: self.waiting.push(message), ..self },
            RelayEvent::Tick => Relay {
                waiting: Seq::empty(),
                delivered: self.delivered + self.waiting,
            },
        }
    }

    /// The channel after a run of events, first to last.
    pub open spec fn run(self, events: Seq<RelayEvent<M>>) -> Relay<M>
        decreases events.len(),
    {
        if events.len() == 0 {
            self
        } else {
            self.run(events.drop_last()).step(events.last())
        }
    }
}

/// Nothing is lost and nothing overtakes: at every moment, what was taken out
/// followed by what waits is exactly what was enqueued, in the order of
/// enqueueing.
pub proof fn lemma_relay_keeps_order<M>(events: Seq<RelayEvent<M>>)
    ensures
        Relay::<M>::fresh().run(events).delivered + Relay::<M>::fresh().run(events).waiting
            == enqueued(events),
    decreases events.len(),
{
    if events.len() > 0 {
        lemma_relay_keeps_order(events.drop_last());
    }
}

/// Order per producer. Let `from_producer` tell the messages of one producer
/// from all others. Whatever the interleaving with other producers and with
/// ticks, the coordinator takes out that producer's messages in the order in
/// which the producer enqueued them: its messages among those taken out,
/// followed by its messages among those that wait, are its enqueued messages
/// in order. After a tick nothing waits, and the messages taken out from that
/// producer are exactly those it enqueued.
pub proof fn lemma_producer_order<M>(
    events: Seq<RelayEvent<M>>,
    from_producer: spec_fn(M) -> bool,
)
    ensures
        ({
            let relay = Relay::<M>::fresh().run(events);
            &&& relay.delivered.filter(from_producer) + relay.waiting.filter(from_producer)
                == enqueued(events).filter(from_producer)
            &&& events.len() > 0 && events.last() is Tick ==> relay.delivered.filter(from_producer)
                == enqueued(events).filter(from_producer)
        }),
{
    let relay = Relay::<M>::fresh().run(events);
    lemma_relay_keeps_order(events);
    Seq::filter_distributes_over_add(relay.delivered, relay.waiting, from_producer);
}

} // verus!
