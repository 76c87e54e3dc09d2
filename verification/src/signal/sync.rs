pub mod protocol;
pub mod sink;
pub mod source;

pub use sink::Sink;
pub use source::Source;

use vstd::prelude::*;

verus! {

/// A Source and a first Sink that perform a handshake: the Source publishes
/// nothing new until every Sink has seen what was published last. Where it
/// cannot publish it says so and returns, so the caller decides what to do
/// meanwhile. The Source starts out with the default value published and
/// nothing to acknowledge.
pub fn create<T>() -> (pair: (Source<T>, Sink<T>)) where T: Send + Sync + Clone + Default
    ensures
        call_ensures(T::default, (), pair.0.last()),
        pair.1.channel() == pair.0.channel(),
        pair.1.counter() == pair.0.counter(),
{
    let source = Source::from(T::default());
    let sink = Sink::from(&source);
    (source, sink)
}

/// What a Source reports when it is asked to publish.
#[derive(Debug, Clone, Copy, PartialEq, Eq, Structural)]
pub enum State {
    /// No Sink is left: publishing reaches nobody.
    AllGone,
    /// The value published last has not been acknowledged by every Sink, so
    /// nothing new is published.
    Receiving,
    /// The value was published.
    Ready,
}

impl State {
    /// What a Source without handshake reports once it has published:
    /// whether anybody is there to read.
    pub open spec fn presence(sinks: nat) -> State {
        if sinks == 0 {
            State::AllGone
        } else {
            State::Ready
        }
    }

    /// What the handshake allows with `sinks` live Sinks, `acks` of which
    /// still owe their acknowledgment of the value published last.
    pub open spec fn handshake(sinks: nat, acks: nat) -> State {
        if sinks == 0 {
            State::AllGone
        } else if acks > 0 {
            State::Receiving
        } else {
            State::Ready
        }
    }

    /// What a Source that asks to publish sets the counter of outstanding
    /// acknowledgments to: the number of Sinks where the handshake lets it
    /// publish, since each of them then owes one. Where it does not, the
    /// counter is left alone.
    pub open spec fn resets(sinks: nat, acks: nat) -> Option<nat> {
        if State::handshake(sinks, acks) == State::Ready {
            Some(sinks)
        } else {
            None
        }
    }

    /// The number of Sinks among `holders` handles to a signal, one of which
    /// is the Source's own.
    pub open spec fn sinks_among(holders: nat) -> nat {
        if holders == 0 {
            0
        } else if holders - 1 > u32::MAX {
            u32::MAX as nat
        } else {
            (holders - 1) as nat
        }
    }

    /// Whether a Sink that acknowledged the value with id `last_id` last
    /// owes an acknowledgment for the value with id `id`.
    pub open spec fn owes(last_id: u64, id: u64) -> bool {
        last_id != id
    }

    /// The acknowledgments outstanding after one more has come in. One
    /// that comes in when none is outstanding changes nothing.
    pub open spec fn acknowledged(acks: nat) -> nat {
        if acks == 0 {
            0
        } else {
            (acks - 1) as nat
        }
    }

    /// What a Source with handshake answers when asked whether a value
    /// equals the one published last: while acknowledgments are
    /// outstanding it is no, whatever the value.
    pub open spec fn confirms(self, same: bool) -> bool {
        self != State::Receiving && same
    }

    /// What a Source without handshake reports with `sinks` live Sinks.
    pub fn of_presence(sinks: u32) -> (state: State)
        ensures
            state == State::presence(sinks as nat),
    {
        if sinks == 0 {
            State::AllGone
        } else {
            State::Ready
        }
    }

    /// What the handshake allows with `sinks` live Sinks, `acks` of which
    /// still owe their acknowledgment.
    pub fn evaluate(sinks: u32, acks: u32) -> (state: State)
        ensures
            state == State::handshake(sinks as nat, acks as nat),
    {
        if sinks == 0 {
            State::AllGone
        } else if acks > 0 {
            State::Receiving
        } else {
            State::Ready
        }
    }

    /// What a Source that asks to publish is told, and what it has to set
    /// the counter of outstanding acknowledgments to, with `sinks` live
    /// Sinks, `acks` of which still owe their acknowledgment.
    pub fn plan(sinks: u32, acks: u32) -> (plan: (State, Option<u32>))
        ensures
            plan.0 == State::handshake(sinks as nat, acks as nat),
            plan.1 == if plan.0 == State::Ready {
                Some(sinks)
            } else {
                None
            },
            State::resets(sinks as nat, acks as nat) == match plan.1 {
                Some(n) => Some(n as nat),
                None => None,
            },
    {
        let state = State::evaluate(sinks, acks);
        match state {
            State::Ready => (state, Some(sinks)),
            _ => (state, None),
        }
    }

    /// Whether a Sink that acknowledged the value with id `last_id` last
    /// owes an acknowledgment for the value with id `id`.
    pub fn must_acknowledge(last_id: u64, id: u64) -> (owed: bool)
        ensures
            owed == State::owes(last_id, id),
    {
        last_id != id
    }

    /// The counter of outstanding acknowledgments after one more has come
    /// in, or `None` where none was outstanding and the counter stays as it
    /// is.
    pub fn one_less(acks: u32) -> (left: Option<u32>)
        ensures
            left == if acks == 0 {
                None
            } else {
                Some((acks - 1) as u32)
            },
            State::acknowledged(acks as nat) == match left {
                Some(n) => n as nat,
                None => acks as nat,
            },
    {
        acks.checked_sub(1)
    }

    /// What a Source with handshake answers, in this state, when asked
    /// whether a value equals the one published last, given whether it
    /// does.
    pub fn confirm(self, same: bool) -> (answer: bool)
        ensures
            answer == self.confirms(same),
    {
        match self {
            State::Receiving => false,
            _ => same,
        }
    }

    /// Counts the Sinks among `holders` handles, as far as a `u32` can
    /// count.
    pub fn count_sinks(holders: usize) -> (sinks: u32)
        ensures
            sinks == State::sinks_among(holders as nat),
    {
        if holders == 0 {
            0
        } else if holders - 1 > u32::MAX as usize {
            u32::MAX
        } else {
            (holders - 1) as u32
        }
    }
}

} // verus!
