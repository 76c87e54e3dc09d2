use atomx::signal::SignalAccess;
use atomx::state::machine::Machine;
use atomx::state::machine::Transitions;
use atomx::state::Dependency;
use atomx::state::ModifiableStateMachine;
use atomx::state::StateMachine;
use atomx::state::Transition;

const UNDEFINED: u16 = 0;
const A: u16 = 1;
const B: u16 = 2;
const C: u16 = 3;

const G: u16 = 1;
const H: u16 = 2;
const L: u16 = 3;
const M: u16 = 4;
const N: u16 = 5;

fn sm() -> Machine {
    let rules = vec![(A, G, B), (C, M, A), (B, L, C), (A, H, A), (C, N, B)];
    Machine::with_table(A, UNDEFINED, Transitions::from_rules(&rules))
}

#[test]
fn produce_works() {
    let sm1 = sm();
    let _sm2 = sm();
    let found = sm1.lookup(&A, &G);
    assert_eq!(found.state, A);
    assert_eq!(found.event, G);
    assert_eq!(found.next, B);
    assert_eq!(found.detour, UNDEFINED);
    assert!(found.dependencies.is_none());
    assert_eq!(found.dependency_count(), 0);
    assert_eq!(format!("{:?}", found.dependencies), "None");
    assert_eq!(sm1.state(), A);
    assert_eq!(sm1.stop(), UNDEFINED);
}

#[test]
fn lookup_of_an_undeclared_pair_yields_the_undefined_transition() {
    let machine = sm();
    for (state, event) in [(A, L), (B, G), (UNDEFINED, UNDEFINED), (77, 78), (C, G)] {
        let found = machine.lookup(&state, &event);
        assert_eq!(found.state, UNDEFINED);
        assert_eq!(found.event, UNDEFINED);
        assert_eq!(found.next, UNDEFINED);
        assert_eq!(found.detour, UNDEFINED);
        assert!(found.dependencies.is_none());
    }
}

#[test]
fn the_first_rule_declared_for_a_pair_counts() {
    let mut machine = Machine::new(A, C);
    machine.declare(A, G, B);
    machine.declare(A, G, C);
    assert_eq!(machine.lookup(&A, &G).next, B);
    assert_eq!(machine.next(&G), B);
    let table = Transitions::from_rules(&vec![(A, G, C), (A, G, B), (B, G, A)]);
    assert_eq!(table.find(A, G), Some(0));
    assert_eq!(table.find(B, G), Some(2));
    assert_eq!(table.find(C, G), None);
    assert_eq!(Transitions::new().find(A, G), None);
}

#[test]
fn the_same_events_give_the_same_states() {
    let events = [G, L, N, L, M, H, G, L, M, G];
    let expected = [B, C, B, C, A, A, B, C, A, B];
    let mut first = sm();
    let mut second = sm();
    for (event, state) in events.iter().zip(expected) {
        assert_eq!(first.next(event), state);
        assert_eq!(first.state(), state);
    }
    for (event, state) in events.iter().zip(expected) {
        assert_eq!(second.next(event), state);
    }
    first.reset();
    assert_eq!(first.state(), A);
    for (event, state) in events.iter().zip(expected) {
        assert_eq!(first.next(event), state);
    }
}

#[test]
fn an_undeclared_event_leads_to_the_undefined_state() {
    let mut machine = sm();
    assert_eq!(machine.next(&M), UNDEFINED);
    assert_eq!(machine.state(), UNDEFINED);
    assert_eq!(machine.next(&G), UNDEFINED);
    machine.reset();
    assert_eq!(machine.next(&G), B);
}

#[test]
fn a_machine_reports_its_state_through_its_signal() {
    let mut machine = sm();
    assert_eq!(machine.signal().probe(), A as u32);
    machine.next(&G);
    assert_eq!(machine.signal().probe(), B as u32);
    let watcher = machine.signal().clone();
    machine.next(&L);
    assert_eq!(watcher.probe(), C as u32);
    machine.reset();
    assert_eq!(watcher.probe(), A as u32);
    machine.set_state(B);
    assert_eq!(machine.state(), B);
    assert_eq!(watcher.probe(), B as u32);
}

#[test]
fn a_met_dependency_leads_to_the_detour() {
    let mut a = sm();
    let mut b = sm();
    // a's step from A on G depends on b being in C
    a.transition(A, G).depend_on(&b, C).next_if_pending(C);
    assert_eq!(a.lookup(&A, &G).dependency_count(), 1);
    assert_eq!(a.lookup(&A, &G).detour, C);
    assert_eq!(a.lookup(&A, &G).next, B);

    // b is in A: the dependency is not met, a takes the rule's next
    assert_eq!(a.next(&G), B);

    // b moves to C: the dependency is met, a takes the detour
    b.next(&G);
    b.next(&L);
    assert_eq!(b.state(), C);
    a.reset();
    assert_eq!(a.next(&G), C);

    // b moves on: next again
    b.next(&M);
    a.reset();
    assert_eq!(a.next(&G), B);
}

#[test]
fn loop_if_pending_keeps_the_machine_where_it_is() {
    let mut a = sm();
    let b = sm();
    a.transition(B, L).depend_on(&b, A).loop_if_pending();
    assert_eq!(a.lookup(&B, &L).detour, B);
    assert_eq!(a.next(&G), B);
    // b is in A: met, so a stays in B
    assert_eq!(a.next(&L), B);
    assert_eq!(a.next(&L), B);
}

#[test]
fn one_met_dependency_among_several_is_enough() {
    let mut a = sm();
    let mut b = sm();
    let mut c = sm();
    let d = sm();
    a.transition(A, G).depend_on(&b, B).next_if_pending(C);
    a.transition(A, G).depend_on(&c, C).next_if_pending(C);
    a.transition(A, G).depend_on(&d, B).next_if_pending(C);
    let rule = a.lookup(&A, &G);
    assert_eq!(rule.dependency_count(), 3);
    assert_eq!(rule.probe(), vec![A as u32, A as u32, A as u32]);
    assert_eq!(a.next(&G), B);

    b.next(&G);
    assert_eq!(a.lookup(&A, &G).probe(), vec![B as u32, A as u32, A as u32]);
    a.reset();
    assert_eq!(a.next(&G), C);

    b.reset();
    c.next(&G);
    c.next(&L);
    assert_eq!(a.lookup(&A, &G).probe(), vec![A as u32, C as u32, A as u32]);
    a.reset();
    assert_eq!(a.next(&G), C);

    c.reset();
    a.reset();
    assert_eq!(a.next(&G), B);
}

#[test]
fn resolve_follows_the_reports_given() {
    let mut a = sm();
    let b = sm();
    let c = sm();
    a.transition(C, N).depend_on(&b, B).next_if_pending(A);
    a.transition(C, N).depend_on(&c, C).next_if_pending(A);
    let rule = a.lookup(&C, &N);
    assert_eq!(rule.resolve(&vec![A as u32, A as u32]), B);
    assert_eq!(rule.resolve(&vec![B as u32, A as u32]), A);
    assert_eq!(rule.resolve(&vec![A as u32, C as u32]), A);
    assert_eq!(rule.resolve(&vec![B as u32, C as u32]), A);
    assert_eq!(rule.resolve(&vec![C as u32, B as u32]), B);
    // a dependency without a report is not met; further reports are ignored
    assert_eq!(rule.resolve(&vec![]), B);
    assert_eq!(rule.resolve(&vec![A as u32]), B);
    assert_eq!(rule.resolve(&vec![B as u32]), A);
    assert_eq!(rule.resolve(&vec![A as u32, A as u32, C as u32]), B);
    // of a report the lower 16 bits count
    assert_eq!(rule.resolve(&vec![0x0001_0002, A as u32]), A);
    assert_eq!(rule.resolve(&vec![0x0002_0000, A as u32]), B);
    // without dependencies the reports do not matter
    let free = a.lookup(&A, &G);
    assert_eq!(free.resolve(&vec![]), B);
    assert_eq!(free.resolve(&vec![A as u32, B as u32]), B);
}

#[test]
fn dependency_hits() {
    assert!(Dependency::is_hit(0, 0));
    assert!(Dependency::is_hit(3, 3));
    assert!(!Dependency::is_hit(3, 4));
    assert!(Dependency::is_hit(0xffff, 0xffff));
    assert!(Dependency::is_hit(0x1_0003, 3));
    assert!(!Dependency::is_hit(0x3_0000, 3));
    assert!(Dependency::is_hit(u32::MAX, u16::MAX));
    let dependency = Dependency::default();
    assert_eq!(dependency.state, 0);
    assert_eq!(dependency.signal.probe(), 0);
    let copy = dependency.clone();
    dependency.signal.emit(9);
    assert_eq!(copy.signal.probe(), 9);
    assert_eq!(copy.state, 0);
}

#[test]
fn the_default_transition_is_undefined_throughout() {
    let transition: Transition<u16, u16> = Transition::default();
    assert_eq!(transition.state, 0);
    assert_eq!(transition.event, 0);
    assert_eq!(transition.next, 0);
    assert_eq!(transition.detour, 0);
    assert!(transition.dependencies.is_none());
    assert_eq!(transition.dependency_count(), 0);
    assert!(transition.probe().is_empty());
}

#[test]
fn tick() {
    const STOP: u16 = 1;
    const WAIT: u16 = 2;
    const TICK: u16 = 3;
    const INIT: u16 = 1;
    const WAKE_UP: u16 = 2;
    const DONE: u16 = 3;
    const LIMIT: u16 = 4;
    let mut machine = Machine::new(STOP, STOP);
    machine.declare(STOP, INIT, TICK);
    machine.declare(WAIT, WAKE_UP, TICK);
    machine.declare(TICK, DONE, WAIT);
    machine.declare(TICK, LIMIT, STOP);

    let limit = 30;
    let mut event = INIT;
    let mut c = 0_i32;
    let mut steps = 0;
    loop {
        steps += 1;
        match machine.next(&event) {
            TICK => {
                event = if c >= limit { LIMIT } else { DONE };
            }
            WAIT => {
                c += 1;
                event = WAKE_UP
            }
            STOP => break,
            _ => panic!("entered undefined state from ({:?}, {:?})", machine.state(), event),
        }
    }
    assert_eq!(c, 30);
    assert_eq!(steps, 62);
    assert_eq!(machine.state(), machine.stop());
}

#[test]
fn last_transition_signal_is_kept() {
    let mut machine = sm();
    assert!(machine.last_transition_signal().is_none());
    let other = sm();
    machine.set_last_transition_signal(Some(other.signal().clone()));
    assert_eq!(machine.last_transition_signal().as_ref().map(|s| s.probe()), Some(A as u32));
    assert_eq!(machine.state(), A);
    assert_eq!(machine.next(&G), B);
}

#[test]
fn connect_wires_a_declared_rule() {
    let mut a = sm();
    let mut b = sm();
    assert!(a.defines(A, G));
    assert!(!a.defines(A, L));
    assert!(a.connect(A, G, &b, B, C));
    assert_eq!(a.lookup(&A, &G).dependency_count(), 1);
    assert_eq!(a.lookup(&A, &G).detour, C);
    // no rule for the pair: nothing to connect
    assert!(!a.connect(A, L, &b, B, C));
    assert!(!a.connect(UNDEFINED, UNDEFINED, &b, B, C));
    assert_eq!(a.lookup(&A, &L).dependency_count(), 0);
    assert_eq!(a.next(&G), B);
    b.next(&G);
    a.reset();
    assert_eq!(a.next(&G), C);
}

#[test]
fn depend_on_signal_appends_in_order() {
    let mut rule: Transition<u16, u16> = Transition::default();
    let first = sm();
    let second = sm();
    rule.next = A;
    rule.depend_on_signal(first.signal().clone(), A).next_if_pending(B);
    rule.depend_on_signal(second.signal().clone(), C).loop_if_pending();
    assert_eq!(rule.dependency_count(), 2);
    assert_eq!(rule.detour, UNDEFINED);
    assert_eq!(rule.resolve(&rule.probe()), UNDEFINED);
    first.signal().emit(B as u32);
    assert_eq!(rule.probe(), vec![B as u32, A as u32]);
    assert_eq!(rule.resolve(&rule.probe()), A);
    second.signal().emit(C as u32);
    assert_eq!(rule.probe(), vec![B as u32, C as u32]);
    assert_eq!(rule.resolve(&rule.probe()), UNDEFINED);
}

#[test]
fn a_rule_takes_as_many_dependencies_as_it_is_given() {
    let mut a = sm();
    let b = sm();
    let many = 70_000;
    for n in 0..many {
        assert_eq!(a.lookup(&A, &G).dependency_count(), n);
        assert!(a.connect(A, G, &b, C, C));
    }
    assert_eq!(a.lookup(&A, &G).dependency_count(), many);
    assert_eq!(a.lookup(&A, &G).probe().len(), many);
    assert_eq!(a.lookup(&A, &G).detour, C);
    // none of them is met
    assert_eq!(a.next(&G), B);
    // the last one added is looked at like the first
    a.reset();
    a.transition(A, G).depend_on(&b, A).next_if_pending(A);
    assert_eq!(a.lookup(&A, &G).dependency_count(), many + 1);
    assert_eq!(a.next(&G), A);
}
