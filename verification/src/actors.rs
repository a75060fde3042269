//! An idea for message passing between actors: each round, actors hand in their outgoing
//! messages, which are then matched to the addressed actors.

use vstd::prelude::*;

verus! {

/// Something that sends and receives messages under an address.
pub trait Actor<TAddress> {
    type Message;

    fn can_execute(&self) -> bool;

    fn address(&self) -> TAddress;

    fn recieve_message(&mut self, from_address: TAddress, input: Self::Message);

    /// The message the actor hands in when next asked, with the address it goes to.
    closed spec fn pending(&self) -> Option<(TAddress, Self::Message)> {
        arbitrary()
    }

    /// Hands in the actor's pending message, if it has one.
    fn retrieve_outgoing_messages(&mut self) -> (outgoing: Option<(TAddress, Self::Message)>)
        ensures
            outgoing == old(self).pending(),
    ;
}

/// The messages handed in, in order: those of the actors that had one.
pub open spec fn handed_in<TAddress, TMsg>(outgoing: Seq<Option<(TAddress, TMsg)>>) -> Seq<(TAddress, TMsg)> {
    outgoing.filter(|o: Option<(TAddress, TMsg)>| o is Some).map_values(|o: Option<(TAddress, TMsg)>| o.unwrap())
}

/// At most one message is handed in per actor asked.
pub proof fn lemma_handed_in_bounded<TAddress, TMsg>(outgoing: Seq<Option<(TAddress, TMsg)>>)
    ensures
        handed_in(outgoing).len() <= outgoing.len(),
{
    outgoing.lemma_filter_len(|o: Option<(TAddress, TMsg)>| o is Some);
}

/// Queues what the actors handed in, in order, dropping the answers without a message.
pub fn collect_outgoing<TAddress, TMsg>(outgoing: Vec<Option<(TAddress, TMsg)>>) -> (queue: Vec<(TAddress, TMsg)>)
    ensures
        queue@ == handed_in(outgoing@),
{
    let ghost all = outgoing@;
    let mut rest = outgoing;
    let mut reversed: Vec<Option<(TAddress, TMsg)>> = Vec::new();
    while rest.len() > 0
        invariant
            all == rest@ + reversed@.reverse(),
        decreases rest@.len(),
    {
        let ghost before = rest@;
        let o = rest.pop().unwrap();
        reversed.push(o);
        proof {
            assert(reversed@.reverse() == seq![o] + reversed@.drop_last().reverse());
            assert(before == rest@.push(o));
        }
    }
    assert(reversed@.reverse() =~= all);
    let mut queue: Vec<(TAddress, TMsg)> = Vec::new();
    assert(all.skip(0) =~= all);
    while reversed.len() > 0
        invariant
            reversed@.len() <= all.len(),
            reversed@.reverse() =~= all.skip(all.len() - reversed@.len()),
            queue@ == handed_in(all.take(all.len() - reversed@.len())),
        decreases reversed@.len(),
    {
        let ghost n = all.len() - reversed@.len();
        let ghost before = reversed@;
        let o = reversed.pop().unwrap();
        proof {
            assert(before == reversed@.push(o));
            assert(before.reverse()[0] == o);
            assert(all.skip(n)[0] == all[n]);
            assert(reversed@.reverse() =~= all.skip(n + 1)) by {
                assert forall|k: int| 0 <= k < reversed@.len() implies reversed@.reverse()[k] == all.skip(n + 1)[k] by {
                    assert(reversed@.reverse()[k] == before.reverse()[k + 1]);
                    assert(all.skip(n)[k + 1] == all.skip(n + 1)[k]);
                }
            }
            let pred = |x: Option<(TAddress, TMsg)>| x is Some;
            let get = |x: Option<(TAddress, TMsg)>| x.unwrap();
            assert(all.take(n + 1).drop_last() =~= all.take(n));
            assert(all.take(n + 1).last() == o);
            reveal(Seq::filter);
            assert(all.take(n + 1).filter(pred) == if o is Some {
                all.take(n).filter(pred).push(o)
            } else {
                all.take(n).filter(pred)
            });
            if o is Some {
                assert(all.take(n).filter(pred).push(o).map_values(get) =~= all.take(n).filter(pred).map_values(get).push(o.unwrap()));
            }
        }
        match o {
            Some(m) => {
                queue.push(m);
            },
            None => {},
        }
    }
    assert(all.take(all.len() as int) =~= all);
    queue
}

/// Holds the actors and the messages of the current round.
pub struct ActorManager<TMsg, TAddress, TActor> {
    actors: Vec<TActor>,
    message_queue: Vec<(TAddress, TMsg)>,
}

impl<TMsg, TAddress: PartialEq, TActor: Actor<TAddress, Message = TMsg>> ActorManager<
    TMsg,
    TAddress,
    TActor,
> {
    /// The actors, in the order they are asked.
    pub closed spec fn actors(&self) -> Seq<TActor> {
        self.actors@
    }

    /// The number of actors.
    pub open spec fn actor_count(&self) -> nat {
        self.actors().len()
    }

    /// The messages of the last round.
    pub closed spec fn messages(&self) -> Seq<(TAddress, TMsg)> {
        self.message_queue@
    }

    /// A manager of the given actors, with no messages.
    pub fn new(actors: Vec<TActor>) -> (manager: Self)
        ensures
            manager.actors() == actors@,
            manager.messages() == Seq::<(TAddress, TMsg)>::empty(),
    {
        Self { actors, message_queue: Vec::new() }
    }

    /// The messages of the last round.
    pub fn message_queue(&self) -> (messages: &Vec<(TAddress, TMsg)>)
        ensures
            messages@ == self.messages(),
    {
        &self.message_queue
    }

    /// Runs a round: drops the previous messages, asks each actor once, in order, for its
    /// pending message, and queues the ones handed in, in actor order (see
    /// `collect_outgoing`); then looks up the addressee of each queued message.
    pub fn execute(&mut self)
        ensures
            final(self).actor_count() == old(self).actor_count(),
            final(self).messages() == handed_in(
                Seq::new(old(self).actor_count(), |i: int| old(self).actors()[i].pending()),
            ),
    {
        self.message_queue.clear();
        let ghost orig = self.actors@;
        let mut outgoing: Vec<Option<(TAddress, TMsg)>> = Vec::new();
        let mut i: usize = 0;
        while i < self.actors.len()
            invariant
                i <= self.actors@.len(),
                self.actors@.len() == orig.len(),
                orig == old(self).actors@,
                outgoing@.len() == i,
                forall|j: int| i <= j < orig.len() ==> #[trigger] self.actors@[j] == orig[j],
                forall|j: int| 0 <= j < i ==> #[trigger] outgoing@[j] == orig[j].pending(),
            decreases self.actors@.len() - i,
        {
            let message = self.actors[i].retrieve_outgoing_messages();
            outgoing.push(message);
            i = i + 1;
        }
        let ghost asked = outgoing@;
        assert(asked =~= Seq::new(orig.len(), |j: int| orig[j].pending()));
        self.message_queue = collect_outgoing(outgoing);
        proof {
            lemma_handed_in_bounded(asked);
        }

        let mut m: usize = 0;
        while m < self.message_queue.len()
            invariant
                m <= self.message_queue@.len(),
                self.message_queue@ == handed_in(asked),
                asked.len() == old(self).actors@.len(),
                self.actors@.len() == old(self).actors@.len(),
            decreases self.message_queue@.len() - m,
        {
            let mut a: usize = 0;
            while a < self.actors.len()
                invariant
                    a <= self.actors@.len(),
                    m < self.message_queue@.len(),
                    self.message_queue@ == handed_in(asked),
                    asked.len() == old(self).actors@.len(),
                    self.actors@.len() == old(self).actors@.len(),
                decreases self.actors@.len() - a,
            {
                if self.actors[a].address() == self.message_queue[m].0 {
                    // Delivery of the message is not decided yet.
                }
                a = a + 1;
            }
            m = m + 1;
        }
    }
}

} // verus!
