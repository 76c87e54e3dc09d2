//! A state machine over 16-bit codes whose rules are declared one by one.
//! State 0 and event 0 are reserved: they stand for "undefined".
use super::Dependency;
use super::ModifiableStateMachine;
use super::Signal;
use super::StateMachine;
use super::Transition;
use crate::signal::SignalAccess;
use vstd::prelude::*;

verus! {

/// The rules of a state machine, in the order in which they were declared.
/// Where two rules are declared for the same state and event, the first
/// one counts.
pub struct Transitions<S, E> {
    pub list: Vec<Transition<S, E>>,
}

impl Transitions<u16, u16> {
    /// Whether `rule` is a rule for `state` and `event`.
    pub open spec fn applies(rule: Transition<u16, u16>, state: u16, event: u16) -> bool {
        rule.state == state && rule.event == event
    }

    /// The index of the first rule for `state` and `event` among those from
    /// index `from` on.
    pub open spec fn search(
        list: Seq<Transition<u16, u16>>,
        state: u16,
        event: u16,
        from: int,
    ) -> Option<int>
        decreases list.len() - from,
    {
        if from < 0 || from >= list.len() {
            None
        } else if Self::applies(list[from], state, event) {
            Some(from)
        } else {
            Self::search(list, state, event, from + 1)
        }
    }

    /// The index of the rule for `state` and `event`.
    pub open spec fn position(&self, state: u16, event: u16) -> Option<int> {
        Self::search(self.list@, state, event, 0)
    }

    /// What a rule is when it is declared: it leads to `next`, has the
    /// undefined state for a detour and depends on nothing.
    pub open spec fn declared(state: u16, event: u16, next: u16) -> Transition<u16, u16> {
        Transition { state, event, next, detour: 0, dependencies: None }
    }

    /// No rules.
    pub fn new() -> (transitions: Self)
        ensures
            transitions.list@.len() == 0,
    {
        Transitions { list: Vec::new() }
    }

    /// Declares that in `state`, `event` leads to `next`.
    pub fn declare(&mut self, state: u16, event: u16, next: u16)
        ensures
            final(self).list@ == old(self).list@.push(Self::declared(state, event, next)),
    {
        self.list.push(Transition { state, event, next, detour: 0, dependencies: None });
    }

    /// The rules that `rules` lists as state, event and next state, in that
    /// order.
    pub fn from_rules(rules: &Vec<(u16, u16, u16)>) -> (transitions: Self)
        ensures
            transitions.list@.len() == rules@.len(),
            forall|i: int|
                0 <= i < rules@.len() ==> #[trigger] transitions.list@[i] == Self::declared(
                    rules@[i].0,
                    rules@[i].1,
                    rules@[i].2,
                ),
    {
        let mut transitions = Transitions::new();
        let mut i: usize = 0;
        while i < rules.len()
            invariant
                i <= rules@.len(),
                transitions.list@.len() == i,
                forall|j: int|
                    0 <= j < i ==> #[trigger] transitions.list@[j] == Self::declared(
                        rules@[j].0,
                        rules@[j].1,
                        rules@[j].2,
                    ),
            decreases rules@.len() - i,
        {
            let rule = rules[i];
            transitions.declare(rule.0, rule.1, rule.2);
            i += 1;
        }
        transitions
    }

    /// The index of the rule for `state` and `event`, if one was declared.
    pub fn find(&self, state: u16, event: u16) -> (at: Option<usize>)
        ensures
            match at {
                Some(i) => self.position(state, event) == Some(i as int) && i < self.list@.len(),
                None => self.position(state, event) is None,
            },
    {
        let mut i: usize = 0;
        while i < self.list.len()
            invariant
                i <= self.list@.len(),
                self.position(state, event) == Self::search(self.list@, state, event, i as int),
            decreases self.list@.len() - i,
        {
            if self.list[i].state == state && self.list[i].event == event {
                return Some(i);
            }
            i += 1;
        }
        None
    }

    /// A rule found by `search` is a rule for the state and event looked
    /// for, and no rule before it is.
    pub proof fn lemma_search_finds_first(
        list: Seq<Transition<u16, u16>>,
        state: u16,
        event: u16,
        from: int,
    )
        requires
            0 <= from,
        ensures
            match Self::search(list, state, event, from) {
                Some(i) => {
                    &&& from <= i < list.len()
                    &&& Self::applies(list[i], state, event)
                    &&& forall|j: int| from <= j < i ==> !Self::applies(list[j], state, event)
                },
                None => forall|j: int| from <= j < list.len() ==> !Self::applies(
                    list[j],
                    state,
                    event,
                ),
            },
        decreases list.len() - from,
    {
        if from < list.len() && !Self::applies(list[from], state, event) {
            Self::lemma_search_finds_first(list, state, event, from + 1);
        }
    }

    /// Replacing a rule by one for the same state and event changes the
    /// outcome of no search.
    pub proof fn lemma_update_keeps_search(
        list: Seq<Transition<u16, u16>>,
        at: int,
        changed: Transition<u16, u16>,
        state: u16,
        event: u16,
    )
        requires
            0 <= at < list.len(),
        ensures
            Transition::same_key(list[at], changed) ==> Self::search(
                list.update(at, changed),
                state,
                event,
                0,
            ) == Self::search(list, state, event, 0),
    {
        if Transition::same_key(list[at], changed) {
            let after = list.update(at, changed);
            assert forall|j: int| 0 <= j < list.len() implies Transition::same_key(
                list[j],
                after[j],
            ) by {}
            Self::lemma_search_goes_by_keys(list, after, state, event, 0);
        }
    }

    /// Two lists whose rules are for the same states and events, index by
    /// index, are searched with the same outcome.
    pub proof fn lemma_search_goes_by_keys(
        a: Seq<Transition<u16, u16>>,
        b: Seq<Transition<u16, u16>>,
        state: u16,
        event: u16,
        from: int,
    )
        requires
            a.len() == b.len(),
            forall|j: int| 0 <= j < a.len() ==> Transition::same_key(a[j], b[j]),
        ensures
            Self::search(a, state, event, from) == Self::search(b, state, event, from),
        decreases a.len() - from,
    {
        if 0 <= from < a.len() {
            assert(Transition::same_key(a[from], b[from]));
            if !Self::applies(a[from], state, event) {
                Self::lemma_search_goes_by_keys(a, b, state, event, from + 1);
            }
        }
    }
}

/// A state machine whose states and events are 16-bit codes.
pub struct Machine {
    state: u16,
    start: u16,
    stop: u16,
    transitions: Transitions<u16, u16>,
    /// What a lookup yields where no rule was declared.
    undefined: Transition<u16, u16>,
    /// Never read. It is there so that no caller can get hold of
    /// `undefined` for writing.
    scratch: Transition<u16, u16>,
    signal: Signal,
    last_signal: Option<Signal>,
}

impl Machine {
    /// The rules, in the order in which they were declared.
    pub closed spec fn table(&self) -> Seq<Transition<u16, u16>> {
        self.transitions.list@
    }

    /// The state in which the machine is meant to end.
    pub closed spec fn goal(&self) -> u16 {
        self.stop
    }

    /// What a lookup yields where no rule was declared: the rule that leads
    /// from the undefined state to the undefined state.
    pub open spec fn no_rule() -> Transition<u16, u16> {
        Transition { state: 0, event: 0, next: 0, detour: 0, dependencies: None }
    }

    /// What a lookup yields where no rule was declared. It is `no_rule()`
    /// from the start and never changes.
    pub closed spec fn fallback(&self) -> Transition<u16, u16> {
        self.undefined
    }

    /// A machine in state `start` with the rules of `transitions`.
    pub fn with_table(start: u16, stop: u16, transitions: Transitions<u16, u16>) -> (machine: Self)
        ensures
            machine.placed() == start,
            machine.origin() == start,
            machine.goal() == stop,
            machine.table() == transitions.list@,
            machine.fallback() == Self::no_rule(),
            machine.kept() is None,
    {
        Machine {
            state: start,
            start,
            stop,
            transitions,
            undefined: Transition { state: 0, event: 0, next: 0, detour: 0, dependencies: None },
            scratch: Transition { state: 0, event: 0, next: 0, detour: 0, dependencies: None },
            signal: Signal::new(start as u32),
            last_signal: None,
        }
    }

    /// Declares that in `state`, `event` leads to `next`.
    pub fn declare(&mut self, state: u16, event: u16, next: u16)
        ensures
            final(self).table() == old(self).table().push(
                Transitions::declared(state, event, next),
            ),
            final(self).placed() == old(self).placed(),
            final(self).origin() == old(self).origin(),
            final(self).goal() == old(self).goal(),
            final(self).identity() == old(self).identity(),
            final(self).kept() == old(self).kept(),
            final(self).fallback() == old(self).fallback(),
    {
        self.transitions.declare(state, event, next);
    }

    /// Whether a rule was declared for `state` and `event`.
    pub fn defines(&self, state: u16, event: u16) -> (defined: bool)
        ensures
            defined == self.has_rule(state, event),
    {
        self.transitions.find(state, event).is_some()
    }

    /// Makes the rule for `state` and `event` depend on `other`: where
    /// `other` is in state `expected` when the rule is taken, the rule
    /// leads to `detour`. Nothing changes, and the answer is no, where no
    /// such rule was declared.
    pub fn connect(
        &mut self,
        state: u16,
        event: u16,
        other: &Machine,
        expected: u16,
        detour: u16,
    ) -> (connected: bool)
        ensures
            connected == old(self).has_rule(state, event),
            !connected ==> *final(self) == *old(self),
            connected ==> {
                &&& final(self).rule(state, event).state == state
                &&& final(self).rule(state, event).event == event
                &&& final(self).rule(state, event).next == old(self).rule(state, event).next
                &&& final(self).rule(state, event).detour == detour
                &&& final(self).rule(state, event).conditions() == old(self).rule(
                    state,
                    event,
                ).conditions().push(Dependency::expecting(other.identity(), expected))
                &&& forall|s: u16, e: u16|
                    s != state || e != event ==> #[trigger] final(self).rule(s, e) == old(
                        self,
                    ).rule(s, e)
                &&& forall|s: u16, e: u16| #[trigger]
                    final(self).has_rule(s, e) == old(self).has_rule(s, e)
                &&& final(self).placed() == old(self).placed()
                &&& final(self).origin() == old(self).origin()
                &&& final(self).identity() == old(self).identity()
                &&& final(self).kept() == old(self).kept()
                &&& final(self).goal() == old(self).goal()
                &&& final(self).fallback() == old(self).fallback()
                &&& final(self).table().len() == old(self).table().len()
            },
    {
        if !self.defines(state, event) {
            return false;
        }
        proof {
            Transitions::lemma_search_finds_first(self.table(), state, event, 0);
        }
        self.mut_lookup(&state, &event).depend_on_signal(
            other.signal().clone(),
            expected,
        ).next_if_pending(detour);
        true
    }

    /// The state in which the machine is meant to end.
    pub fn stop(&self) -> (stop: u16)
        ensures
            stop == self.goal(),
    {
        self.stop
    }
}

impl ModifiableStateMachine<u16, u16> for Machine {
    closed spec fn placed(&self) -> u16 {
        self.state
    }

    closed spec fn origin(&self) -> u16 {
        self.start
    }

    closed spec fn identity(&self) -> Signal {
        self.signal
    }

    closed spec fn kept(&self) -> Option<Signal> {
        self.last_signal
    }

    open spec fn rule(&self, state: u16, event: u16) -> Transition<u16, u16> {
        match Transitions::search(self.table(), state, event, 0) {
            Some(i) => self.table()[i],
            None => self.fallback(),
        }
    }

    open spec fn has_rule(&self, state: u16, event: u16) -> bool {
        Transitions::search(self.table(), state, event, 0) is Some
    }

    fn last_transition_signal(&self) -> &Option<Signal> {
        &self.last_signal
    }

    fn lookup(&self, state: &u16, event: &u16) -> (transition: &Transition<u16, u16>) {
        match self.transitions.find(*state, *event) {
            Some(i) => &self.transitions.list[i],
            None => &self.undefined,
        }
    }

    fn mut_lookup(&mut self, state: &u16, event: &u16) -> (transition: &mut Transition<u16, u16>)
        ensures
            final(self).goal() == old(self).goal(),
            final(self).fallback() == old(self).fallback(),
            final(self).table().len() == old(self).table().len(),
    {
        let ghost this = self;
        match self.transitions.find(*state, *event) {
            Some(i) => {
                let transition = &mut self.transitions.list[i];
                proof {
                    let before = this.table();
                    assert(final(this).table() == before.update(i as int, *final(transition)));
                    assert(final(this).fallback() == this.fallback());
                    Transitions::lemma_search_finds_first(before, *state, *event, 0);
                    Transitions::lemma_update_keeps_search(
                        before,
                        i as int,
                        *final(transition),
                        *state,
                        *event,
                    );
                    assert forall|s: u16, e: u16|
                        Transition::same_key(*transition, *final(transition)) implies (
                    #[trigger] final(this).has_rule(s, e)) == this.has_rule(s, e) by {
                        Transitions::lemma_update_keeps_search(
                            before,
                            i as int,
                            *final(transition),
                            s,
                            e,
                        );
                    }
                    assert forall|s: u16, e: u16|
                        Transition::same_key(*transition, *final(transition)) && (s != *state || e
                            != *event) implies #[trigger] final(this).rule(s, e) == this.rule(
                        s,
                        e,
                    ) by {
                        Transitions::lemma_update_keeps_search(
                            before,
                            i as int,
                            *final(transition),
                            s,
                            e,
                        );
                        Transitions::lemma_search_finds_first(before, s, e, 0);
                    }
                }
                transition
            },
            None => &mut self.scratch,
        }
    }

    /// Puts the machine into `state` and reports the state through the
    /// machine's signal.
    fn set_state(&mut self, state: u16)
        ensures
            final(self).goal() == old(self).goal(),
            final(self).fallback() == old(self).fallback(),
            final(self).table() == old(self).table(),
    {
        self.state = state;
        self.signal.emit(state as u32);
    }

    fn set_last_transition_signal(&mut self, signal: Option<Signal>)
        ensures
            final(self).goal() == old(self).goal(),
            final(self).fallback() == old(self).fallback(),
            final(self).table() == old(self).table(),
    {
        self.last_signal = signal;
    }
}

impl StateMachine<u16, u16> for Machine {
    /// A machine in state `start` without rules.
    fn new(start: u16, stop: u16) -> (machine: Self)
        ensures
            machine.goal() == stop,
            machine.table().len() == 0,
            machine.fallback() == Machine::no_rule(),
            machine.kept() is None,
    {
        Machine::with_table(start, stop, Transitions::new())
    }

    fn state(&self) -> (state: u16) {
        self.state
    }

    fn signal(&self) -> (signal: &Signal) {
        &self.signal
    }

    /// Puts the machine back into the state it started in and reports
    /// that state through the machine's signal.
    fn reset(&mut self)
        ensures
            final(self).goal() == old(self).goal(),
            final(self).fallback() == old(self).fallback(),
            final(self).table() == old(self).table(),
    {
        self.state = self.start;
        self.signal.emit(self.start as u32);
    }
}

} // verus!
