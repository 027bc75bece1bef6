//! The queue of outbound messages.

use vstd::prelude::*;
use std::collections::VecDeque;
use crate::address::Address;
use crate::message::{Message, MessageView};
use crate::requirements::DeliveryRequirement;

verus! {

/// Whether draining `queue` under `filter` takes out `taken` and keeps `kept`:
/// every message of `queue` went to `taken` where the filter accepted it and
/// to `kept` where it did not, and both kept the order of `queue`.
pub open spec fn drains_to<F: Fn(&Message) -> bool>(
    queue: Seq<Message>,
    filter: F,
    taken: Seq<Message>,
    kept: Seq<Message>,
) -> bool
    decreases queue.len(),
{
    if queue.len() == 0 {
        taken.len() == 0 && kept.len() == 0
    } else {
        let rest = queue.drop_last();
        let message = queue.last();
        ||| {
            &&& filter.ensures((&message,), true)
            &&& taken.len() > 0
            &&& taken.last() == message
            &&& drains_to(rest, filter, taken.drop_last(), kept)
        }
        ||| {
            &&& filter.ensures((&message,), false)
            &&& kept.len() > 0
            &&& kept.last() == message
            &&& drains_to(rest, filter, taken, kept.drop_last())
        }
    }
}

/// Outbound messages waiting to be sent, oldest first.
pub struct TransportResource {
    messages: VecDeque<Message>,
}

impl TransportResource {
    /// The waiting messages in submission order.
    pub closed spec fn queue(&self) -> Seq<Message> {
        self.messages@
    }

    /// An empty queue.
    pub fn new() -> (transport: TransportResource)
        ensures
            transport.queue() == Seq::<Message>::empty(),
    {
        TransportResource { messages: VecDeque::new() }
    }

    /// Whether any message is waiting.
    pub fn has_messages(&self) -> (any: bool)
        ensures
            any == (self.queue().len() > 0),
    {
        self.messages.len() > 0
    }

    /// How many messages are waiting.
    pub fn len(&self) -> (n: usize)
        ensures
            n == self.queue().len(),
    {
        self.messages.len()
    }

    /// Appends a message for `destination` that carries a copy of `payload`.
    /// Always succeeds; the queue has no bound of its own.
    pub fn send(&mut self, destination: Address, payload: &[u8], delivery: DeliveryRequirement)
        ensures
            final(self).queue().len() == old(self).queue().len() + 1,
            final(self).queue().drop_last() == old(self).queue(),
            final(self).queue().last()@ == (MessageView { destination, payload: payload@, delivery }),
    {
        let message = Message::new(destination, payload, delivery);
        self.enqueue(message);
    }

    /// Appends `message` behind the messages that wait already.
    pub fn enqueue(&mut self, message: Message)
        ensures
            final(self).queue() == old(self).queue().push(message),
    {
        self.messages.push_back(message);
    }

    /// Takes out, in submission order, every waiting message that `filter`
    /// accepts. The others stay, in their order.
    pub fn drain_messages_to_send<F: Fn(&Message) -> bool>(&mut self, filter: F) -> (drained: Vec<Message>)
        requires
            forall|message: Message| #[trigger] filter.requires((&message,)),
        ensures
            drains_to(old(self).queue(), filter, drained@, final(self).queue()),
    {
        let ghost before = self.messages@;
        let mut pending: VecDeque<Message> = VecDeque::new();
        std::mem::swap(&mut self.messages, &mut pending);
        let mut drained: Vec<Message> = Vec::new();
        let ghost mut seen: int = 0;
        while pending.len() > 0
            invariant
                0 <= seen <= before.len(),
                pending@ == before.skip(seen),
                drains_to(before.take(seen), filter, drained@, self.messages@),
                forall|message: Message| #[trigger] filter.requires((&message,)),
            decreases pending.len(),
        {
            let message = pending.pop_front().unwrap();
            let accepted = filter(&message);
            proof {
                assert(message == before[seen]);
                assert(before.take(seen + 1).drop_last() == before.take(seen));
                assert(before.take(seen + 1).last() == message);
                assert(pending@ == before.skip(seen + 1));
            }
            if accepted {
                let ghost taken = drained@;
                drained.push(message);
                proof {
                    assert(drained@.drop_last() == taken);
                }
            } else {
                let ghost kept = self.messages@;
                self.messages.push_back(message);
                proof {
                    assert(self.messages@.drop_last() == kept);
                }
            }
            proof {
                seen = seen + 1;
            }
        }
        proof {
            assert(before.take(seen) == before);
        }
        drained
    }
}

impl Default for TransportResource {
    fn default() -> (transport: TransportResource)
        ensures
            transport.queue() == Seq::<Message>::empty(),
    {
        TransportResource { messages: VecDeque::new() }
    }
}

/// Draining under a filter that accepts every message takes out the whole
/// queue, in submission order, and leaves nothing behind.
pub proof fn lemma_drain_accepting_all<F: Fn(&Message) -> bool>(
    queue: Seq<Message>,
    filter: F,
    taken: Seq<Message>,
    kept: Seq<Message>,
)
    requires
        forall|message: Message, accepted: bool| #[trigger]
            filter.ensures((&message,), accepted) ==> accepted,
        drains_to(queue, filter, taken, kept),
    ensures
        taken == queue,
        kept == Seq::<Message>::empty(),
    decreases queue.len(),
{
    if queue.len() > 0 {
        lemma_drain_accepting_all(queue.drop_last(), filter, taken.drop_last(), kept);
        assert(taken == taken.drop_last().push(taken.last()));
        assert(queue == queue.drop_last().push(queue.last()));
    } else {
        assert(taken == queue);
        assert(kept == Seq::<Message>::empty());
    }
}

/// Draining under a filter that accepts no message takes out nothing and
/// leaves the queue as it was.
pub proof fn lemma_drain_accepting_none<F: Fn(&Message) -> bool>(
    queue: Seq<Message>,
    filter: F,
    taken: Seq<Message>,
    kept: Seq<Message>,
)
    requires
        forall|message: Message, accepted: bool| #[trigger]
            filter.ensures((&message,), accepted) ==> !accepted,
        drains_to(queue, filter, taken, kept),
    ensures
        taken == Seq::<Message>::empty(),
        kept == queue,
    decreases queue.len(),
{
    if queue.len() > 0 {
        lemma_drain_accepting_none(queue.drop_last(), filter, taken, kept.drop_last());
        assert(kept == kept.drop_last().push(kept.last()));
        assert(queue == queue.drop_last().push(queue.last()));
    } else {
        assert(kept == queue);
        assert(taken == Seq::<Message>::empty());
    }
}

/// Draining loses and invents nothing: what was taken out and what was kept
/// are together as many as the queue held.
pub proof fn lemma_drain_keeps_count<F: Fn(&Message) -> bool>(
    queue: Seq<Message>,
    filter: F,
    taken: Seq<Message>,
    kept: Seq<Message>,
)
    requires
        drains_to(queue, filter, taken, kept),
    ensures
        taken.len() + kept.len() == queue.len(),
    decreases queue.len(),
{
    if queue.len() > 0 {
        let message = queue.last();
        if filter.ensures((&message,), true) && taken.len() > 0 && taken.last() == message
            && drains_to(queue.drop_last(), filter, taken.drop_last(), kept) {
            lemma_drain_keeps_count(queue.drop_last(), filter, taken.drop_last(), kept);
        } else {
            lemma_drain_keeps_count(queue.drop_last(), filter, taken, kept.drop_last());
        }
    }
}

} // verus!
