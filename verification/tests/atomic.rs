use atomx::signal::BooleanSignal;
use atomx::signal::RawSignalU32;
use atomx::signal::SignalAccess;
use atomx::signal::SignalU32;

#[test]
fn boolean_signal() {
    let signal = BooleanSignal::new(true);
    assert!(signal.is_true());
    assert!(!signal.is_false());
    assert!(signal.probe());
    signal.emit(false);
    assert!(!signal.is_true());
    assert!(signal.is_false());
    assert!(!signal.probe());
    let fresh = BooleanSignal::default();
    assert!(fresh.is_false());
}

#[test]
fn raw_signal_counts_up_and_down() {
    let signal = RawSignalU32::new(5);
    assert_eq!(signal.probe(), 5);
    assert_eq!(signal.incr(), 6);
    assert_eq!(signal.incr(), 7);
    assert_eq!(signal.probe(), 7);
    assert_eq!(signal.decr(), 6);
    assert_eq!(signal.probe(), 6);
    signal.emit(40);
    assert_eq!(signal.decr(), 39);
    assert_eq!(RawSignalU32::default().probe(), 0);
}

#[test]
fn raw_signal_goes_round_at_the_ends() {
    let signal = RawSignalU32::new(u32::MAX);
    assert_eq!(signal.incr(), 0);
    assert_eq!(signal.probe(), 0);
    assert_eq!(signal.decr(), u32::MAX);
    assert_eq!(signal.probe(), u32::MAX);
    assert_eq!(RawSignalU32::counted_up(u32::MAX), 0);
    assert_eq!(RawSignalU32::counted_up(0), 1);
    assert_eq!(RawSignalU32::counted_down(0), u32::MAX);
    assert_eq!(RawSignalU32::counted_down(1), 0);
}

#[test]
fn shared_signal_handles_see_each_other() {
    let first = SignalU32::new(3);
    let second = first.clone();
    assert_eq!(second.probe(), 3);
    first.emit(8);
    assert_eq!(second.probe(), 8);
    assert_eq!(second.incr(), 9);
    assert_eq!(first.probe(), 9);
    assert_eq!(SignalU32::default().probe(), 0);
}
