pub mod machine;

use crate::signal::SignalAccess;
use crate::signal::SignalU32;
use smallvec::SmallVec;
use vstd::prelude::*;
use vstd::std_specs::convert::IntoSpec;

verus! {

/// The signal through which a state machine tells others which state it is
/// in.
pub type Signal = SignalU32;

/// A condition on another state machine: that it is in state `state` when
/// asked through `signal`.
#[derive(Debug)]
pub struct Dependency {
    pub signal: Signal,
    pub state: u16,
}

impl Clone for Dependency {
    /// The same condition on the same state machine.
    fn clone(&self) -> (other: Self)
        ensures
            other == *self,
    {
        Dependency { signal: self.signal.clone(), state: self.state }
    }
}

impl Default for Dependency {
    /// The condition that a state machine of its own, which nobody else
    /// knows, is in the undefined state.
    fn default() -> (dependency: Self)
        ensures
            dependency.state == 0,
    {
        Dependency { signal: Signal::default(), state: 0 }
    }
}

impl Dependency {
    /// Whether a state machine that reports `probed` is in the state that
    /// `expected` stands for. States are 16 bits wide; of a wider report
    /// the lower 16 bits count.
    pub open spec fn hit(probed: u32, expected: u16) -> bool {
        probed as u16 == expected
    }

    /// The condition that the state machine which reports through
    /// `signal` is in the state with code `state`.
    pub open spec fn expecting(signal: Signal, state: u16) -> Dependency {
        Dependency { signal, state }
    }

    /// Whether a state machine that reports `probed` is in the state that
    /// `expected` stands for.
    pub fn is_hit(probed: u32, expected: u16) -> (hit: bool)
        ensures
            hit == Self::hit(probed, expected),
    {
        #[verifier::truncate]
        (probed as u16) == expected
    }
}

/// The dependencies of one transition, in the order in which they were
/// added. They are kept in a `smallvec::SmallVec` with room for two before
/// it moves to the heap.
#[verifier::external_body]
#[derive(Debug)]
pub struct Dependencies {
    list: SmallVec<[Dependency; 2]>,
}

/// The items that a list holds, first to last.
pub uninterp spec fn held(list: Dependencies) -> Seq<Dependency>;

impl View for Dependencies {
    type V = Seq<Dependency>;

    open spec fn view(&self) -> Seq<Dependency> {
        held(*self)
    }
}

impl Dependencies {
    /// `SmallVec::with_capacity`: an empty list.
    #[verifier::external_body]
    pub(crate) fn with_capacity(n: usize) -> (list: Self)
        requires
            n <= 2,
        ensures
            held(list) == Seq::<Dependency>::empty(),
    {
        Dependencies { list: SmallVec::with_capacity(n) }
    }

    /// `SmallVec::push`: appends `item`. It panics only where the new
    /// length overflows or the items would take more bytes than an
    /// allocation can have, which is beyond any list that memory holds.
    #[verifier::external_body]
    pub(crate) fn push(&mut self, item: Dependency)
        ensures
            held(*final(self)) == held(*old(self)).push(item),
    {
        self.list.push(item)
    }

    /// `SmallVec::len`: the number of items.
    #[verifier::external_body]
    pub(crate) fn len(&self) -> (n: usize)
        ensures
            n == held(*self).len(),
    {
        self.list.len()
    }

    /// `SmallVec::index`: the item at `i`. It panics where there is none.
    #[verifier::external_body]
    pub(crate) fn get(&self, i: usize) -> (item: &Dependency)
        requires
            i < held(*self).len(),
        ensures
            *item == held(*self)[i as int],
    {
        &self.list[i]
    }
}

/// One rule of a state machine: in state `state`, event `event` leads to
/// `next`, or to `detour` where one of the dependencies is met.
#[derive(Debug)]
pub struct Transition<S, E> {
    pub state: S,
    pub event: E,
    pub next: S,
    pub detour: S,
    /// `None` until the first dependency is added.
    pub dependencies: Option<Dependencies>,
}

impl<S, E> Default for Transition<S, E> where
    S: Into<u16> + From<u16> + Copy + Default,
    E: Into<u16> + Copy + Default,
 {
    /// The transition that stands for "no such rule": every part of it is
    /// the default.
    fn default() -> (transition: Self)
        ensures
            call_ensures(S::default, (), transition.state),
            call_ensures(E::default, (), transition.event),
            call_ensures(S::default, (), transition.next),
            call_ensures(S::default, (), transition.detour),
            transition.dependencies is None,
    {
        Transition {
            state: S::default(),
            event: E::default(),
            next: S::default(),
            detour: S::default(),
            dependencies: None,
        }
    }
}

impl<S, E> Transition<S, E> {
    /// Whether two transitions are rules for the same state and event.
    pub open spec fn same_key(a: Self, b: Self) -> bool {
        a.state == b.state && a.event == b.event
    }

    /// The dependencies, in the order in which they were added.
    pub open spec fn conditions(&self) -> Seq<Dependency> {
        match self.dependencies {
            Some(list) => list@,
            None => Seq::empty(),
        }
    }

    /// How many of the first `n` dependencies are met, given what each
    /// state machine depended on reports. A dependency without a report is
    /// not met.
    pub open spec fn met(conditions: Seq<Dependency>, probes: Seq<u32>, n: int) -> nat
        decreases n,
    {
        if n <= 0 {
            0
        } else {
            Self::met(conditions, probes, n - 1) + if n - 1 < probes.len() && Dependency::hit(
                probes[n - 1],
                conditions[n - 1].state,
            ) {
                1nat
            } else {
                0nat
            }
        }
    }

    /// The state that this transition leads to, given what each state
    /// machine depended on reports: `next` where no dependency is met, and
    /// `detour` where at least one is.
    pub open spec fn target(&self, probes: Seq<u32>) -> S {
        if Self::met(self.conditions(), probes, self.conditions().len() as int) == 0 {
            self.next
        } else {
            self.detour
        }
    }

    /// The number of dependencies.
    pub fn dependency_count(&self) -> (n: usize)
        ensures
            n == self.conditions().len(),
    {
        match &self.dependencies {
            Some(list) => list.len(),
            None => 0,
        }
    }

    /// Asks each state machine depended on for its state, in the order of
    /// the dependencies.
    pub fn probe(&self) -> (probes: Vec<u32>)
        ensures
            probes@.len() == self.conditions().len(),
    {
        let mut probes: Vec<u32> = Vec::new();
        match &self.dependencies {
            Some(list) => {
                let n = list.len();
                let mut i: usize = 0;
                while i < n
                    invariant
                        n == list@.len(),
                        i <= n,
                        probes@.len() == i,
                    decreases n - i,
                {
                    probes.push(list.get(i).signal.probe());
                    i += 1;
                }
            },
            None => {},
        }
        probes
    }

    /// The state that this transition leads to when the state machines
    /// depended on report `probes`.
    pub fn resolve(&self, probes: &Vec<u32>) -> (state: S) where S: Copy
        ensures
            state == self.target(probes@),
    {
        let mut count: usize = 0;
        match &self.dependencies {
            Some(list) => {
                let n = list.len();
                let mut i: usize = 0;
                while i < n
                    invariant
                        n == list@.len(),
                        list@ == self.conditions(),
                        i <= n,
                        count <= i,
                        count == Self::met(self.conditions(), probes@, i as int),
                    decreases n - i,
                {
                    if i < probes.len() && Dependency::is_hit(probes[i], list.get(i).state) {
                        count += 1;
                    }
                    i += 1;
                }
            },
            None => {},
        }
        if count == 0 {
            self.next
        } else {
            self.detour
        }
    }
}

/// What a state machine is made of: the state it is in, the state it
/// started in, the signal that tells others its state, and the rule for each
/// state and event.
pub trait ModifiableStateMachine<S, E>: Sized {
    /// The state that the machine is in.
    open spec fn placed(&self) -> S {
        arbitrary()
    }

    /// The state that the machine started in and goes back to on `reset`.
    open spec fn origin(&self) -> S {
        arbitrary()
    }

    /// The signal through which the machine tells others its state.
    open spec fn identity(&self) -> Signal {
        arbitrary()
    }

    /// The rule for `state` and `event`. Where none was declared it is the
    /// rule that stands for "no such rule".
    open spec fn rule(&self, state: S, event: E) -> Transition<S, E> {
        arbitrary()
    }

    /// Whether a rule was declared for `state` and `event`.
    open spec fn has_rule(&self, state: S, event: E) -> bool {
        arbitrary()
    }

    /// The signal that was set aside last, if any.
    open spec fn kept(&self) -> Option<Signal> {
        arbitrary()
    }

    /// The signal that was set aside with `set_last_transition_signal`.
    fn last_transition_signal(&self) -> (signal: &Option<Signal>)
        ensures
            *signal == self.kept(),
    ;

    /// The rule for `state` and `event`, or the rule that stands for "no
    /// such rule".
    fn lookup(&self, state: &S, event: &E) -> (transition: &Transition<S, E>)
        ensures
            *transition == self.rule(*state, *event),
    ;

    /// The rule for `state` and `event`, to be changed in place. Only a
    /// declared rule can be changed. If the rule is left with its own state
    /// and event, it is still the rule for them afterwards, and every other
    /// rule is as it was.
    fn mut_lookup(&mut self, state: &S, event: &E) -> (transition: &mut Transition<S, E>)
        requires
            old(self).has_rule(*state, *event),
        ensures
            *transition == old(self).rule(*state, *event),
            final(self).placed() == old(self).placed(),
            final(self).origin() == old(self).origin(),
            final(self).identity() == old(self).identity(),
            final(self).kept() == old(self).kept(),
            Transition::same_key(*transition, *final(transition)) ==> {
                &&& final(self).rule(*state, *event) == *final(transition)
                &&& forall|s: S, e: E|
                    s != *state || e != *event ==> #[trigger] final(self).rule(s, e) == old(
                        self,
                    ).rule(s, e)
                &&& forall|s: S, e: E| #[trigger]
                    final(self).has_rule(s, e) == old(self).has_rule(s, e)
            },
    ;

    /// Puts the machine into `state`.
    fn set_state(&mut self, state: S)
        ensures
            final(self).placed() == state,
            final(self).origin() == old(self).origin(),
            final(self).identity() == old(self).identity(),
            final(self).kept() == old(self).kept(),
            forall|s: S, e: E| #[trigger] final(self).rule(s, e) == old(self).rule(s, e),
            forall|s: S, e: E| #[trigger] final(self).has_rule(s, e) == old(self).has_rule(s, e),
    ;

    /// Sets a signal aside. The machine itself makes no use of it.
    fn set_last_transition_signal(&mut self, signal: Option<Signal>)
        ensures
            final(self).kept() == signal,
            final(self).placed() == old(self).placed(),
            final(self).origin() == old(self).origin(),
            final(self).identity() == old(self).identity(),
            forall|s: S, e: E| #[trigger] final(self).rule(s, e) == old(self).rule(s, e),
            forall|s: S, e: E| #[trigger] final(self).has_rule(s, e) == old(self).has_rule(s, e),
    ;
}

/// A state machine: it is in one state at a time and moves on events.
pub trait StateMachine<S, E>: ModifiableStateMachine<S, E> where
    S: Into<u16> + Copy + Default,
    E: Copy,
 {
    /// A machine in state `start` that is meant to end in state `stop`.
    fn new(start: S, stop: S) -> (machine: Self)
        ensures
            machine.placed() == start,
            machine.origin() == start,
    ;

    /// The state that the machine is in.
    fn state(&self) -> (state: S)
        ensures
            state == self.placed(),
    ;

    /// The signal through which the machine tells others its state.
    fn signal(&self) -> (signal: &Signal)
        ensures
            *signal == self.identity(),
    ;

    /// Puts the machine back into the state it started in.
    fn reset(&mut self)
        ensures
            final(self).placed() == old(self).origin(),
            final(self).origin() == old(self).origin(),
            final(self).identity() == old(self).identity(),
            final(self).kept() == old(self).kept(),
            forall|s: S, e: E| #[trigger] final(self).rule(s, e) == old(self).rule(s, e),
            forall|s: S, e: E| #[trigger] final(self).has_rule(s, e) == old(self).has_rule(s, e),
    ;

    /// Takes the step for `event`: looks up the rule for the state the
    /// machine is in, asks the state machines that the rule depends on,
    /// and moves to the rule's `next` where none of them is in the state
    /// named, to its `detour` otherwise.
    fn next(&mut self, event: &E) -> (next: S)
        ensures
            exists|probes: Seq<u32>|
                {
                    &&& probes.len() == old(self).rule(
                        old(self).placed(),
                        *event,
                    ).conditions().len()
                    &&& next == #[trigger] old(self).rule(old(self).placed(), *event).target(
                        probes,
                    )
                },
            final(self).placed() == next,
            final(self).origin() == old(self).origin(),
            final(self).identity() == old(self).identity(),
            final(self).kept() == old(self).kept(),
            forall|s: S, e: E| #[trigger] final(self).rule(s, e) == old(self).rule(s, e),
            forall|s: S, e: E| #[trigger] final(self).has_rule(s, e) == old(self).has_rule(s, e),
    {
        let state = self.state();
        let transition = self.lookup(&state, event);
        let probes = transition.probe();
        let next = transition.resolve(&probes);
        self.set_state(next);
        next
    }

    /// The rule for `state` and `event`, to be connected to other state
    /// machines.
    fn transition(&mut self, state: S, event: E) -> (transition: &mut Transition<S, E>)
        requires
            old(self).has_rule(state, event),
        ensures
            *transition == old(self).rule(state, event),
            final(self).placed() == old(self).placed(),
            final(self).origin() == old(self).origin(),
            final(self).identity() == old(self).identity(),
            final(self).kept() == old(self).kept(),
            Transition::same_key(*transition, *final(transition)) ==> {
                &&& final(self).rule(state, event) == *final(transition)
                &&& forall|s: S, e: E|
                    s != state || e != event ==> #[trigger] final(self).rule(s, e) == old(
                        self,
                    ).rule(s, e)
                &&& forall|s: S, e: E| #[trigger]
                    final(self).has_rule(s, e) == old(self).has_rule(s, e)
            },
    {
        self.mut_lookup(&state, &event)
    }
}

/// A dependency that was just added to a transition and still lacks the
/// state to go to when it is met.
pub struct DetourConnection<'c, SA, EA> {
    transition: &'c mut Transition<SA, EA>,
}

impl<'c, SA, EA> DetourConnection<'c, SA, EA> where SA: Copy {
    /// The transition that the dependency was added to.
    pub closed spec fn pending(self) -> &'c mut Transition<SA, EA> {
        self.transition
    }

    /// Where the dependency is met, the transition leads to `state`.
    pub fn next_if_pending(self, state: SA)
        ensures
            final(self.pending()).detour == state,
            final(self.pending()).state == self.pending().state,
            final(self.pending()).event == self.pending().event,
            final(self.pending()).next == self.pending().next,
            final(self.pending()).dependencies == self.pending().dependencies,
    {
        self.transition.detour = state;
    }

    /// Where the dependency is met, the transition leads back to the state
    /// it starts from.
    pub fn loop_if_pending(self)
        ensures
            final(self.pending()).detour == self.pending().state,
            final(self.pending()).state == self.pending().state,
            final(self.pending()).event == self.pending().event,
            final(self.pending()).next == self.pending().next,
            final(self.pending()).dependencies == self.pending().dependencies,
    {
        self.transition.detour = self.transition.state;
    }
}

impl<S, E> Transition<S, E> {
    /// Makes this transition depend on the state machine that reports
    /// through `signal`: where that machine is in the state with code
    /// `state` when the transition is taken, the transition leads to its
    /// detour. The detour is set through what is returned.
    pub fn depend_on_signal<'a>(&'a mut self, signal: Signal, state: u16) -> (connection:
        DetourConnection<'a, S, E>) where S: Copy
        ensures
            connection.pending().state == old(self).state,
            connection.pending().event == old(self).event,
            connection.pending().next == old(self).next,
            connection.pending().detour == old(self).detour,
            connection.pending().dependencies is Some,
            connection.pending().conditions() == old(self).conditions().push(
                Dependency { signal, state },
            ),
            *final(self) == *final(connection.pending()),
    {
        let transition = self;
        let dependency = Dependency { signal, state };
        if transition.dependencies.is_none() {
            transition.dependencies = Some(Dependencies::with_capacity(2))
        }
        if let Some(dep) = &mut transition.dependencies {
            dep.push(dependency);
        }
        DetourConnection { transition }
    }

    /// Makes this transition depend on `state_machine`: where that machine
    /// is in `state` when the transition is taken, the transition leads to
    /// its detour. The detour is set through what is returned.
    pub fn depend_on<'a, SMB, SB, EB>(&'a mut self, state_machine: &SMB, state: SB) -> (connection:
        DetourConnection<'a, S, E>) where
        S: Copy,
        SB: Into<u16> + Copy + Default,
        EB: Copy,
        SMB: StateMachine<SB, EB>,

        ensures
            connection.pending().state == old(self).state,
            connection.pending().event == old(self).event,
            connection.pending().next == old(self).next,
            connection.pending().detour == old(self).detour,
            exists|code: u16|
                {
                    &&& SB::obeys_into_spec() ==> code == state.into_spec()
                    &&& #[trigger] Dependency::expecting(state_machine.identity(), code)
                        == connection.pending().conditions().last()
                },
            connection.pending().dependencies is Some,
            connection.pending().conditions().drop_last() == old(self).conditions(),
            connection.pending().conditions().len() == old(self).conditions().len() + 1,
            *final(self) == *final(connection.pending()),
    {
        let signal = state_machine.signal().clone();
        let code: u16 = state.into();
        assert(Dependency::expecting(signal, code) == old(self).conditions().push(
            Dependency { signal, state: code },
        ).last());
        assert(old(self).conditions().push(Dependency { signal, state: code }).drop_last()
            == old(self).conditions());
        self.depend_on_signal(signal, code)
    }
}

impl<S, E> Transition<S, E> {
    /// No dependency among the first `n` is met exactly if none of them is
    /// hit by its report.
    pub proof fn lemma_met_counts_hits(conditions: Seq<Dependency>, probes: Seq<u32>, n: int)
        requires
            0 <= n <= conditions.len(),
            n <= probes.len(),
        ensures
            Self::met(conditions, probes, n) == 0 <==> forall|i: int|
                0 <= i < n ==> !Dependency::hit(#[trigger] probes[i], conditions[i].state),
        decreases n,
    {
        if n > 0 {
            Self::lemma_met_counts_hits(conditions, probes, n - 1);
        }
    }

    /// A transition without dependencies leads to `next`, whatever anybody
    /// reports.
    pub proof fn lemma_free_transition(self, probes: Seq<u32>)
        requires
            self.conditions().len() == 0,
        ensures
            self.target(probes) == self.next,
    {
    }

    /// A transition with dependencies leads to `next` where no dependency
    /// is hit by the report of its state machine, and to `detour` where one
    /// is: the reports decide, and nothing else.
    pub proof fn lemma_reports_decide(self, probes: Seq<u32>)
        requires
            probes.len() == self.conditions().len(),
        ensures
            self.target(probes) == if forall|i: int|
                0 <= i < probes.len() ==> !Dependency::hit(
                    #[trigger] probes[i],
                    self.conditions()[i].state,
                ) {
                self.next
            } else {
                self.detour
            },
    {
        Self::lemma_met_counts_hits(self.conditions(), probes, probes.len() as int);
    }
}

/// Whether two machines have the same rules, the same state to start from
/// and the same signal to report through.
pub open spec fn same_rules<S, E, M: ModifiableStateMachine<S, E>>(a: M, b: M) -> bool {
    &&& a.origin() == b.origin()
    &&& a.identity() == b.identity()
    &&& forall|s: S, e: E| #[trigger] a.rule(s, e) == b.rule(s, e)
    &&& forall|s: S, e: E| #[trigger] a.has_rule(s, e) == b.has_rule(s, e)
}

/// The state that `machine` gets to from `state` through `events` when
/// each rule on the way leads to its `next`.
pub open spec fn follow<S, E, M: ModifiableStateMachine<S, E>>(
    machine: M,
    state: S,
    events: Seq<E>,
) -> S
    decreases events.len(),
{
    if events.len() == 0 {
        state
    } else {
        machine.rule(follow(machine, state, events.drop_last()), events.last()).next
    }
}

/// Whether no rule of `machine` depends on another state machine.
pub open spec fn independent<S, E, M: ModifiableStateMachine<S, E>>(machine: M) -> bool {
    forall|s: S, e: E| (#[trigger] machine.rule(s, e)).conditions().len() == 0
}

/// The step that a machine without dependencies takes on an event is the
/// one that its rules give, whatever other state machines report.
pub proof fn lemma_step_follows_rules<S, E, M: ModifiableStateMachine<S, E>>(
    machine: M,
    event: E,
    probes: Seq<u32>,
)
    requires
        independent::<S, E, M>(machine),
    ensures
        machine.rule(machine.placed(), event).target(probes) == follow(
            machine,
            machine.placed(),
            seq![event],
        ),
{
    let events = seq![event];
    assert(events.drop_last() =~= Seq::<E>::empty());
    assert(follow(machine, machine.placed(), events.drop_last()) == machine.placed());
    assert(events.last() == event);
}

/// Two machines with the same rules that start in the same state get to
/// the same state through the same events.
pub proof fn lemma_same_rules_same_run<S, E, M: ModifiableStateMachine<S, E>>(
    a: M,
    b: M,
    state: S,
    events: Seq<E>,
)
    requires
        same_rules::<S, E, M>(a, b),
    ensures
        follow(a, state, events) == follow(b, state, events),
    decreases events.len(),
{
    if events.len() > 0 {
        lemma_same_rules_same_run(a, b, state, events.drop_last());
        let before = follow(a, state, events.drop_last());
        assert(b.rule(before, events.last()) == a.rule(before, events.last()));
    }
}

} // verus!
