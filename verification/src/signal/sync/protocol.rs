//! The handshake as a state machine over plain values, and what is proved
//! of it. A `Channel` stands for everything that a Source and its Sinks
//! share; its steps are built from the same decisions that the Source and
//! the Sinks take when they run.
use super::State;
use vstd::prelude::*;

verus! {

/// Everything that a handshake pair shares, as one value.
pub struct Channel<T> {
    /// The published value.
    pub value: T,
    /// The id of the published value.
    pub id: u64,
    /// How many acknowledgments the Source waits for.
    pub acks: nat,
    /// For each live Sink, the id that it acknowledged last; zero where it
    /// has acknowledged nothing.
    pub seen: Seq<u64>,
}

impl<T> Channel<T> {
    /// The channel right after it was created: `value` is published at
    /// `id`, nothing is to be acknowledged, and the one Sink has read
    /// nothing.
    pub open spec fn opened(value: T, id: u64) -> Self {
        Channel { value, id, acks: 0, seen: seq![0u64] }
    }

    /// What the Source would be told if it asked to publish now.
    pub open spec fn state(self) -> State {
        State::handshake(self.seen.len(), self.acks)
    }

    /// What a Sink reads now.
    pub open spec fn read(self) -> T {
        self.value
    }

    /// The Source is asked to publish `value`, which lies at `id`. It does
    /// so where the handshake allows it, and every Sink then owes an
    /// acknowledgment; otherwise nothing changes.
    pub open spec fn send(self, value: T, id: u64) -> Self {
        match State::resets(self.seen.len(), self.acks) {
            Some(acks) => Channel { value, id, acks, seen: self.seen },
            None => self,
        }
    }

    /// The Source publishes `value`, which lies at `id`, without any
    /// handshake.
    pub open spec fn publish(self, value: T, id: u64) -> Self {
        Channel { value, id, acks: self.acks, seen: self.seen }
    }

    /// Sink number `sink` reads, and acknowledges what it read unless it
    /// has done so before.
    pub open spec fn receive(self, sink: int) -> Self {
        Channel {
            value: self.value,
            id: self.id,
            acks: if State::owes(self.seen[sink], self.id) {
                State::acknowledged(self.acks)
            } else {
                self.acks
            },
            seen: self.seen.update(sink, self.id),
        }
    }

    /// A new Sink appears. It has acknowledged nothing.
    pub open spec fn attach(self) -> Self {
        Channel { value: self.value, id: self.id, acks: self.acks, seen: self.seen.push(0) }
    }

    /// Sink number `sink` goes away. What it owed stays owed.
    pub open spec fn detach(self, sink: int) -> Self {
        Channel { value: self.value, id: self.id, acks: self.acks, seen: self.seen.remove(sink) }
    }

    /// How many of the Sinks in `seen` owe an acknowledgment for `id`.
    pub open spec fn owing(seen: Seq<u64>, id: u64) -> nat
        decreases seen.len(),
    {
        if seen.len() == 0 {
            0
        } else {
            Self::owing(seen.drop_last(), id) + if State::owes(seen.last(), id) {
                1nat
            } else {
                0nat
            }
        }
    }

    /// The Source waits for exactly those Sinks that have not read the
    /// published value.
    pub open spec fn balanced(self) -> bool {
        self.acks == Self::owing(self.seen, self.id)
    }

    /// One publication without handshake for each of `values`, the k-th of
    /// which lies at `ids[k]`.
    pub open spec fn publishes(self, values: Seq<T>, ids: Seq<u64>) -> Self
        decreases values.len(),
    {
        if values.len() == 0 {
            self
        } else {
            self.publishes(values.drop_last(), ids.drop_last()).publish(values.last(), ids.last())
        }
    }

    /// The single Sink and the Source take turns: a send, then a read, for
    /// each of `values`.
    pub open spec fn rounds(self, values: Seq<T>, ids: Seq<u64>) -> Self
        decreases values.len(),
    {
        if values.len() == 0 {
            self
        } else {
            self.rounds(values.drop_last(), ids.drop_last()).send(
                values.last(),
                ids.last(),
            ).receive(0)
        }
    }

    /// Each id differs from the one before it, and the first one from
    /// `before`: two values that exist at the same time lie at different
    /// places.
    pub open spec fn fresh(before: u64, ids: Seq<u64>) -> bool {
        forall|k: int|
            0 <= k < ids.len() ==> #[trigger] ids[k] != (if k == 0 {
                before
            } else {
                ids[k - 1]
            })
    }
}

proof fn lemma_owing_bounds<T>(seen: Seq<u64>, id: u64)
    ensures
        Channel::<T>::owing(seen, id) <= seen.len(),
        Channel::<T>::owing(seen, id) == 0 <==> forall|i: int|
            0 <= i < seen.len() ==> seen[i] == id,
        Channel::<T>::owing(seen, id) == seen.len() <==> forall|i: int|
            0 <= i < seen.len() ==> seen[i] != id,
    decreases seen.len(),
{
    if seen.len() > 0 {
        let front = seen.drop_last();
        lemma_owing_bounds::<T>(front, id);
        assert forall|i: int| 0 <= i < front.len() implies front[i] == seen[i] by {}
        if Channel::<T>::owing(seen, id) == 0 {
            assert forall|i: int| 0 <= i < seen.len() implies seen[i] == id by {
                if i < front.len() {
                    assert(front[i] == id);
                }
            }
        }
        if Channel::<T>::owing(seen, id) == seen.len() {
            assert forall|i: int| 0 <= i < seen.len() implies seen[i] != id by {
                if i < front.len() {
                    assert(front[i] != id);
                }
            }
        }
    }
}

proof fn lemma_owing_update<T>(seen: Seq<u64>, id: u64, sink: int)
    requires
        0 <= sink < seen.len(),
    ensures
        Channel::<T>::owing(seen.update(sink, id), id) + (if State::owes(seen[sink], id) {
            1nat
        } else {
            0nat
        }) == Channel::<T>::owing(seen, id),
    decreases seen.len(),
{
    let after = seen.update(sink, id);
    if sink == seen.len() - 1 {
        assert(after.drop_last() =~= seen.drop_last());
    } else {
        lemma_owing_update::<T>(seen.drop_last(), id, sink);
        assert(after.drop_last() =~= seen.drop_last().update(sink, id));
    }
}

impl<T> Channel<T> {
    /// Where the accounts are in balance, the Source is allowed to publish
    /// exactly when every Sink has read the published value: nothing is
    /// overwritten before all have seen it, and nothing holds the Source
    /// up once they have.
    pub proof fn lemma_ready_means_all_read(self)
        requires
            self.balanced(),
            self.seen.len() >= 1,
        ensures
            self.state() == State::Ready <==> forall|sink: int|
                0 <= sink < self.seen.len() ==> self.seen[sink] == self.id,
            self.state() != State::AllGone,
    {
        lemma_owing_bounds::<T>(self.seen, self.id);
    }

    /// A send keeps the accounts in balance, provided the new value does
    /// not lie where the published one lies.
    pub proof fn lemma_send_keeps_balance(self, value: T, id: u64)
        requires
            self.balanced(),
            id != self.id,
        ensures
            self.send(value, id).balanced(),
    {
        if self.state() == State::Ready {
            lemma_owing_bounds::<T>(self.seen, self.id);
            lemma_owing_bounds::<T>(self.seen, id);
        }
    }

    /// A send that goes through brings the accounts into balance whatever
    /// they were, provided no Sink has read anything at the place where
    /// the new value lies. The first send of a new pair is such a send.
    pub proof fn lemma_send_restores_balance(self, value: T, id: u64)
        requires
            self.state() == State::Ready,
            forall|sink: int| 0 <= sink < self.seen.len() ==> self.seen[sink] != id,
        ensures
            self.send(value, id).balanced(),
    {
        lemma_owing_bounds::<T>(self.seen, id);
    }

    /// A read keeps the accounts in balance.
    pub proof fn lemma_receive_keeps_balance(self, sink: int)
        requires
            self.balanced(),
            0 <= sink < self.seen.len(),
        ensures
            self.receive(sink).balanced(),
    {
        lemma_owing_update::<T>(self.seen, self.id, sink);
    }

    /// A read changes neither the published value nor its id.
    pub proof fn lemma_receive_keeps_value(self, sink: int)
        ensures
            self.receive(sink).read() == self.read(),
            self.receive(sink).id == self.id,
    {
    }

    /// After any number of publications without handshake, a read yields
    /// the value published last.
    pub proof fn lemma_read_sees_latest(self, values: Seq<T>, ids: Seq<u64>)
        requires
            values.len() > 0,
        ensures
            self.publishes(values, ids).read() == values.last(),
    {
    }

    /// After a send, a read yields the value sent where the handshake let
    /// it through, and the value published before otherwise.
    pub proof fn lemma_read_after_send(self, value: T, id: u64)
        ensures
            self.send(value, id).read() == if self.state() == State::Ready {
                value
            } else {
                self.read()
            },
    {
    }

    proof fn lemma_rounds(self, values: Seq<T>, ids: Seq<u64>)
        requires
            self.seen.len() == 1,
            self.acks == 0,
            values.len() == ids.len(),
            Self::fresh(self.seen[0], ids),
        ensures
            self.rounds(values, ids).seen.len() == 1,
            self.rounds(values, ids).acks == 0,
            self.rounds(values, ids).seen[0] == if ids.len() == 0 {
                self.seen[0]
            } else {
                ids.last()
            },
            values.len() > 0 ==> self.rounds(values, ids).read() == values.last(),
        decreases values.len(),
    {
        if values.len() > 0 {
            let front = ids.drop_last();
            assert(Self::fresh(self.seen[0], front)) by {
                assert forall|k: int| 0 <= k < front.len() implies #[trigger] front[k] != (if k
                    == 0 {
                    self.seen[0]
                } else {
                    front[k - 1]
                }) by {
                    assert(front[k] == ids[k]);
                }
            }
            self.lemma_rounds(values.drop_last(), front);
            let last = ids.len() - 1;
            assert(ids[last] != (if last == 0 {
                self.seen[0]
            } else {
                ids[last - 1]
            }));
        }
    }

    /// With exactly one Sink, a Source that sends and a Sink that reads in
    /// turn never block each other: every send of such a run finds the
    /// handshake ready.
    pub proof fn lemma_taking_turns_never_blocks(self, values: Seq<T>, ids: Seq<u64>, k: int)
        requires
            self.seen.len() == 1,
            self.acks == 0,
            values.len() == ids.len(),
            Self::fresh(self.seen[0], ids),
            0 <= k <= values.len(),
        ensures
            self.rounds(values.take(k), ids.take(k)).state() == State::Ready,
            k > 0 ==> self.rounds(values.take(k), ids.take(k)).read() == values[k - 1],
    {
        let front = ids.take(k);
        assert(Self::fresh(self.seen[0], front)) by {
            assert forall|j: int| 0 <= j < front.len() implies #[trigger] front[j] != (if j
                == 0 {
                self.seen[0]
            } else {
                front[j - 1]
            }) by {
                assert(front[j] == ids[j]);
            }
        }
        self.lemma_rounds(values.take(k), front);
    }

    /// A pair that was just created takes turns without blocking from the
    /// first send on, whatever it had published to begin with. No value
    /// lies at address zero, which is what a Sink that has read nothing
    /// remembers.
    pub proof fn lemma_new_pair_never_blocks(
        value: T,
        id: u64,
        values: Seq<T>,
        ids: Seq<u64>,
        k: int,
    )
        requires
            values.len() == ids.len(),
            Self::fresh(0, ids),
            0 <= k <= values.len(),
        ensures
            Self::opened(value, id).rounds(values.take(k), ids.take(k)).state() == State::Ready,
            k > 0 ==> Self::opened(value, id).rounds(values.take(k), ids.take(k)).read()
                == values[k - 1],
    {
        Self::opened(value, id).lemma_taking_turns_never_blocks(values, ids, k);
    }

    /// With a Sink that does not read, the send that follows a successful
    /// one is refused and changes nothing.
    pub proof fn lemma_unread_value_blocks(self, first: T, first_id: u64, second: T, second_id: u64)
        requires
            self.seen.len() >= 1,
            self.state() == State::Ready,
        ensures
            self.send(first, first_id).read() == first,
            self.send(first, first_id).state() == State::Receiving,
            self.send(first, first_id).send(second, second_id) == self.send(first, first_id),
    {
    }

    /// When the last Sink has gone, a send reports that all are gone and
    /// changes nothing. A new Sink ends that: the next send goes through
    /// unless the Sink that left still owed its acknowledgment, and then
    /// the new Sink's first read settles what was owed.
    pub proof fn lemma_last_sink_gone(self, value: T, id: u64)
        requires
            self.seen.len() == 1,
        ensures
            self.detach(0).state() == State::AllGone,
            self.detach(0).send(value, id) == self.detach(0),
            self.detach(0).attach().state() != State::AllGone,
            self.detach(0).attach().state() == State::Ready <==> self.acks == 0,
            self.acks <= 1 && self.id != 0 ==> self.detach(0).attach().receive(0).state()
                == State::Ready,
    {
    }

    /// A Sink that goes away without having read the published value
    /// leaves its acknowledgment owed for good: the Sinks that remain have
    /// given theirs, and reading again gives nothing more. Only a new Sink
    /// can settle what is owed.
    pub proof fn lemma_departed_sink_withholds(self, gone: int, reader: int)
        requires
            self.balanced(),
            self.seen.len() >= 2,
            0 <= gone < self.seen.len(),
            self.seen[gone] != self.id,
            forall|sink: int|
                0 <= sink < self.seen.len() && sink != gone ==> self.seen[sink] == self.id,
            0 <= reader < self.seen.len() - 1,
        ensures
            self.detach(gone).state() == State::Receiving,
            self.detach(gone).receive(reader) == self.detach(gone),
            self.id != 0 ==> self.detach(gone).attach().receive(self.seen.len() - 1).acks
                == self.acks - 1,
    {
        lemma_owing_bounds::<T>(self.seen, self.id);
        let left = self.detach(gone);
        assert(left.seen[reader] == self.id) by {
            if reader < gone {
                assert(left.seen[reader] == self.seen[reader]);
            } else {
                assert(left.seen[reader] == self.seen[reader + 1]);
            }
        }
        assert(left.seen.update(reader, self.id) =~= left.seen);
    }

    /// While acknowledgments are outstanding the Source confirms no value
    /// as the one published last; at any other time it confirms exactly
    /// the values that are equal to it.
    pub proof fn lemma_confirms(self, same: bool)
        ensures
            self.state() == State::Receiving ==> !self.state().confirms(same),
            self.state() != State::Receiving ==> self.state().confirms(same) == same,
    {
    }
}

} // verus!
