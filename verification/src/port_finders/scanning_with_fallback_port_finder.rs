//! The fallback composer: tries the scanning finder first, and if and only
//! if scanning is exhausted, asks the OS-query finder once. This ordering
//! favours predictable, low-numbered ports while still producing a port
//! when the configured range is fully occupied.

use vstd::prelude::*;
use crate::is_port_available::probed_available;
use super::os_query_port_finder::OsQueryPortFinder;
use super::scanning_port_finder::ScanningPortFinder;

verus! {

pub struct ScanningWithFallbackPortFinder<const MIN: u16, const MAX: u16> {
    scanner: ScanningPortFinder<MIN, MAX>,
    random: OsQueryPortFinder,
}

impl<const MIN: u16, const MAX: u16> ScanningWithFallbackPortFinder<MIN, MAX> {
    pub closed spec fn wf(self) -> bool {
        self.scanner.wf()
    }

    /// The state of the scanning finder this composer delegates to.
    pub closed spec fn scanner_state(self) -> ScanningPortFinder<MIN, MAX> {
        self.scanner
    }

    pub fn new() -> (r: Self)
        requires
            MIN < MAX,
        ensures
            r.wf(),
            r.scanner_state().cursor() == MIN,
            r.scanner_state().found() == 0,
    {
        Self { scanner: ScanningPortFinder::new(), random: OsQueryPortFinder::new() }
    }

    /// Delegate to the scanning finder; exactly when it is exhausted,
    /// delegate once to the OS-query finder and return its answer.
    ///
    /// A returned port was either found by the scan, with the scan's full
    /// guarantees, or was handed out by the OS after the scan came up
    /// empty, in which case it was confirmed free on UDP. Both strategies
    /// come up empty only when the scan was exhausted and, in addition,
    /// the OS probe can decline or the UDP probe can refuse some port.
    pub fn find_port<T, U, A>(&mut self, tcp: T, udp: U, ask_tcp: A) -> (r: Option<u16>)
        where
            T: Fn(u16) -> bool + Copy,
            U: Fn(u16) -> bool + Copy,
            A: Fn() -> Option<u16> + Copy,
        requires
            old(self).wf(),
            forall|p: u16| #[trigger] call_requires(tcp, (p,)),
            forall|p: u16| #[trigger] call_requires(udp, (p,)),
            call_requires(ask_tcp, ()),
        ensures
            final(self).wf(),
            match r {
                Some(port) => {
                    ||| ScanningPortFinder::<MIN, MAX>::found_transition(
                        old(self).scanner_state(),
                        final(self).scanner_state(),
                        port,
                        tcp,
                        udp,
                    )
                    ||| {
                        &&& ScanningPortFinder::<MIN, MAX>::exhausted_transition(
                            old(self).scanner_state(),
                            final(self).scanner_state(),
                            tcp,
                            udp,
                        )
                        &&& call_ensures(ask_tcp, (), Some(port))
                        &&& call_ensures(udp, (port,), true)
                    }
                },
                None => {
                    &&& ScanningPortFinder::<MIN, MAX>::exhausted_transition(
                        old(self).scanner_state(),
                        final(self).scanner_state(),
                        tcp,
                        udp,
                    )
                    &&& (call_ensures(ask_tcp, (), None::<u16>)
                        || exists|p: u16| call_ensures(udp, (p,), false))
                },
            },
            r is Some ==> call_ensures(udp, (r->Some_0,), true)
                && (probed_available(tcp, udp, r->Some_0)
                    || call_ensures(ask_tcp, (), Some(r->Some_0))),
    {
        match self.scanner.find_port(tcp, udp) {
            Some(port) => Some(port),
            None => self.random.find_port(ask_tcp, udp),
        }
    }
}

} // verus!
