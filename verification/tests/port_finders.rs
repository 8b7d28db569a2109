//! Behaviour of the individual port finders, exercised with injected
//! probes so every outcome is deterministic.

use reserve_port::OsQueryPortFinder;
use reserve_port::ScanningPortFinder;
use reserve_port::find_unused_port;
use reserve_port::is_port_available;

#[test]
fn os_query_port_finder_it_finds_a_random_port() {
    let ask = || Some(49152u16);
    let udp = |_p: u16| true;
    assert!(OsQueryPortFinder::new().find_port(ask, udp).is_some());
}

#[test]
fn scanning_port_finder_it_finds_a_random_port() {
    let free = |_p: u16| true;
    assert!(ScanningPortFinder::<8000, 9999>::new().find_port(free, free).is_some());
}

#[test]
fn os_query_returns_the_port_the_os_assigned() {
    let ask = || Some(50123u16);
    let udp = |_p: u16| true;
    assert_eq!(OsQueryPortFinder::new().find_port(ask, udp), Some(50123));
}

#[test]
fn os_query_gives_up_when_the_os_has_nothing() {
    let ask = || None;
    let udp = |_p: u16| true;
    assert_eq!(OsQueryPortFinder::new().find_port(ask, udp), None);
}

#[test]
fn os_query_gives_up_when_no_candidate_is_free_on_udp() {
    let ask = || Some(50124u16);
    let udp = |_p: u16| false;
    assert_eq!(OsQueryPortFinder::new().find_port(ask, udp), None);
}

#[test]
fn scanning_returns_ports_in_increasing_order_then_exhausts() {
    let free = |_p: u16| true;
    let mut finder = ScanningPortFinder::<8000, 8002>::new();
    assert_eq!(finder.find_port(free, free), Some(8000));
    assert_eq!(finder.find_port(free, free), Some(8001));
    // Only two ports were found since the start, far below the wraparound
    // threshold, so the finder stays exhausted.
    assert_eq!(finder.find_port(free, free), None);
    assert_eq!(finder.find_port(free, free), None);
}

#[test]
fn scanning_skips_ports_the_probes_refuse() {
    let tcp = |p: u16| p != 8000;
    let udp = |p: u16| p != 8001;
    let mut finder = ScanningPortFinder::<8000, 8005>::new();
    assert_eq!(finder.find_port(tcp, udp), Some(8002));
    assert_eq!(finder.find_port(tcp, udp), Some(8003));
    assert_eq!(finder.find_port(tcp, udp), Some(8004));
    assert_eq!(finder.find_port(tcp, udp), None);
}

#[test]
fn scanning_wraps_around_after_a_productive_pass() {
    let free = |_p: u16| true;
    let mut finder = ScanningPortFinder::<100, 700>::new();
    let mut expected: u16 = 100;
    while expected < 700 {
        assert_eq!(finder.find_port(free, free), Some(expected));
        expected += 1;
    }
    // 600 ports were found since the last wraparound, which is above the
    // threshold, so the cursor wraps to the start of the range.
    assert_eq!(finder.find_port(free, free), Some(100));
    assert_eq!(finder.find_port(free, free), Some(101));
}

#[test]
fn scanning_handles_the_top_of_the_port_space() {
    let free = |_p: u16| true;
    let mut finder = ScanningPortFinder::<65534, 65535>::new();
    assert_eq!(finder.find_port(free, free), Some(65534));
    assert_eq!(finder.find_port(free, free), None);
}

#[test]
fn find_unused_port_confirms_the_candidate_on_udp() {
    let ask = || Some(50200u16);
    assert_eq!(find_unused_port(ask, |_p: u16| true), Some(50200));
    assert_eq!(find_unused_port(ask, |_p: u16| false), None);
}

#[test]
fn is_port_available_needs_both_protocols_free() {
    let yes = |_p: u16| true;
    let no = |_p: u16| false;
    assert!(is_port_available(7000, yes, yes));
    assert!(!is_port_available(7000, yes, no));
    assert!(!is_port_available(7000, no, yes));
    assert!(!is_port_available(7000, no, no));
}
