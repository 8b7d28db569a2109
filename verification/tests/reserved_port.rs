//! Behaviour of the reservation ledger and the reserved-port handle.
//!
//! Each test builds its own ledger and injects probes, so reservations are
//! deterministic and no real socket is touched.

use reserve_port::Error;
use reserve_port::ReservedPort;
use reserve_port::ReservedPortFinder;
use reserve_port::ScanningWithFallbackPortFinder;

#[test]
fn it_should_reserve_a_port_for_use() {
    const TEST_PORT_NUM: u16 = 1230;
    let mut finder = ReservedPortFinder::<8000, 9999>::new();

    let reserved = ReservedPort::reserve_port(&mut finder, TEST_PORT_NUM);

    assert!(reserved.is_ok());
}

#[test]
fn it_should_reserve_same_port_twice_in_a_row() {
    const TEST_PORT_NUM: u16 = 1231;
    let mut finder = ReservedPortFinder::<8000, 9999>::new();

    let _ = ReservedPort::reserve_port(&mut finder, TEST_PORT_NUM);
    let reserved = ReservedPort::reserve_port(&mut finder, TEST_PORT_NUM);

    assert!(reserved.is_ok());
}

#[test]
fn it_should_allow_reserving_random_ports_by_hand() {
    let free = |_p: u16| true;
    let ask = || None;
    let mut finder = ReservedPortFinder::<8000, 9999>::new();

    let reserved_1 = ReservedPort::random(&mut finder, free, free, ask).unwrap();
    let reserved_2 = ReservedPort::reserve_port(&mut finder, reserved_1.port());

    assert!(reserved_2.is_ok());
}

#[test]
fn it_should_allow_reserving_random_ports_by_hand_after_they_have_dropped() {
    let free = |_p: u16| true;
    let ask = || None;
    let mut finder = ReservedPortFinder::<8000, 9999>::new();

    let reserved_1 = ReservedPort::random(&mut finder, free, free, ask).unwrap();
    let random_port = reserved_1.port();
    reserved_1.release(&mut finder);

    let result = ReservedPort::reserve_port(&mut finder, random_port);

    assert!(result.is_ok());
}

#[test]
fn it_should_reserve_a_random_port_for_use() {
    let free = |_p: u16| true;
    let ask = || None;
    let mut finder = ReservedPortFinder::<8000, 9999>::new();

    let reserved = ReservedPort::random(&mut finder, free, free, ask);

    assert!(reserved.is_ok());
}

#[test]
fn it_should_reserve_different_ports_over_use() {
    let free = |_p: u16| true;
    let ask = || None;
    let mut finder = ReservedPortFinder::<8000, 9999>::new();

    let reserved_1 = ReservedPort::random(&mut finder, free, free, ask).unwrap();
    let reserved_2 = ReservedPort::random(&mut finder, free, free, ask).unwrap();

    assert_ne!(reserved_1.port(), reserved_2.port());
}

#[test]
fn reserving_a_port_twice_keeps_one_entry_in_the_ledger() {
    let mut finder = ReservedPortFinder::<8000, 9999>::new();

    finder.reserve_port(1230);
    finder.reserve_port(1230);

    assert!(finder.is_reserved(1230));
    assert_eq!(finder.reserved_count(), 1);
}

#[test]
fn two_random_reservations_are_distinct_and_both_recorded() {
    let free = |_p: u16| true;
    let ask = || None;
    let mut finder = ReservedPortFinder::<8000, 9999>::new();

    let p1 = finder.reserve_random_port(free, free, ask).unwrap();
    let p2 = finder.reserve_random_port(free, free, ask).unwrap();

    assert_ne!(p1, p2);
    assert!(finder.is_reserved(p1));
    assert!(finder.is_reserved(p2));
    assert_eq!(finder.reserved_count(), 2);
}

#[test]
fn random_reservations_skip_ports_already_reserved() {
    let free = |_p: u16| true;
    let ask = || None;
    let mut finder = ReservedPortFinder::<8000, 9999>::new();

    finder.reserve_port(8000);
    finder.reserve_port(8001);

    let port = finder.reserve_random_port(free, free, ask).unwrap();
    assert_eq!(port, 8002);
}

#[test]
fn a_released_port_can_be_drawn_again() {
    let free = |_p: u16| true;
    let ask = || None;
    let mut finder = ReservedPortFinder::<8000, 8001>::new();

    let reserved = ReservedPort::random(&mut finder, free, free, ask).unwrap();
    assert_eq!(reserved.port(), 8000);
    reserved.release(&mut finder);

    assert!(!finder.is_reserved(8000));
    let again = ReservedPort::reserve_port(&mut finder, 8000);
    assert!(again.is_ok());
    assert!(finder.is_reserved(8000));
}

#[test]
fn freeing_an_absent_port_is_a_no_op() {
    let mut finder = ReservedPortFinder::<8000, 9999>::new();

    finder.reserve_port(8000);
    finder.free_port(9000);

    assert!(finder.is_reserved(8000));
    assert_eq!(finder.reserved_count(), 1);
}

#[test]
fn the_largest_port_number_can_be_reserved_and_freed() {
    let mut finder = ReservedPortFinder::<8000, 9999>::new();

    finder.reserve_port(65535);
    assert!(finder.is_reserved(65535));

    finder.free_port(65535);
    assert!(!finder.is_reserved(65535));
    assert_eq!(finder.reserved_count(), 0);
}

#[test]
fn random_reports_exhaustion_when_nothing_is_free() {
    let busy = |_p: u16| false;
    let ask = || None;
    let mut finder = ReservedPortFinder::<8000, 8005>::new();

    let reserved = ReservedPort::random(&mut finder, busy, busy, ask);

    assert_eq!(reserved.unwrap_err(), Error::FailedToReservePort);
}

#[test]
fn fallback_finder_asks_the_os_when_scanning_is_exhausted() {
    let tcp = |_p: u16| false;
    let udp = |_p: u16| true;
    let ask = || Some(60000u16);
    let mut finder = ScanningWithFallbackPortFinder::<8000, 8005>::new();

    assert_eq!(finder.find_port(tcp, udp, ask), Some(60000));
}

#[test]
fn fallback_finder_prefers_the_scanned_range() {
    let free = |_p: u16| true;
    let ask = || Some(60000u16);
    let mut finder = ScanningWithFallbackPortFinder::<8000, 8005>::new();

    assert_eq!(finder.find_port(free, free, ask), Some(8000));
    assert_eq!(finder.find_port(free, free, ask), Some(8001));
}
