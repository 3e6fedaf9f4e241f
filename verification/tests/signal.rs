use datapath::signal::{Direction, Signal};
use datapath::DatapathError;

#[test]
fn signal_two_phase_discipline() {
    let mut s = Signal::new(Direction::Input, 8);
    assert_eq!(s.val(), 0);

    // a staged value is invisible until the clock edge
    s.set_next(42).unwrap();
    assert_eq!(s.val(), 0);
    assert_eq!(s.staged(), 42);

    s.commit();
    assert_eq!(s.val(), 42);
    assert_eq!(s.staged(), 42);
}

#[test]
fn signal_width_overflow_is_rejected() {
    let mut s = Signal::new(Direction::Input, 3);

    // 7 is the widest 3-bit value; 8 does not fit and must not be truncated
    s.set_next(7).unwrap();
    assert_eq!(s.set_next(8), Err(DatapathError::WidthOverflow));
    assert_eq!(s.staged(), 7);

    assert_eq!(s.drive(8), Err(DatapathError::WidthOverflow));
    assert_eq!(s.val(), 0);
    s.commit();
    assert_eq!(s.val(), 7);
}

#[test]
fn signal_drive_lands_in_both_states() {
    let mut s = Signal::new(Direction::Input, 32);
    s.drive(0xdeadbeef).unwrap();
    assert_eq!(s.val(), 0xdeadbeef);
    assert_eq!(s.staged(), 0xdeadbeef);

    // a later commit changes nothing
    s.commit();
    assert_eq!(s.val(), 0xdeadbeef);
}
