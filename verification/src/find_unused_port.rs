//! A one-shot convenience search: ask the OS-query finder for a port that
//! is free on both TCP and UDP, with no ledger involved.

use vstd::prelude::*;
use crate::port_finders::os_query_port_finder::OsQueryPortFinder;

verus! {

/// Find a port the OS reports as free.
///
/// `ask_tcp` binds a TCP socket to port 0 and reports the port the OS
/// assigned; `udp` probes whether a port is free on UDP. A returned port
/// came from `ask_tcp` and was approved by `udp`; the search comes up
/// empty only when the OS probe can decline or the UDP probe can refuse
/// some port.
pub fn find_unused_port<A, U>(ask_tcp: A, udp: U) -> (r: Option<u16>)
    where
        A: Fn() -> Option<u16> + Copy,
        U: Fn(u16) -> bool + Copy,
    requires
        call_requires(ask_tcp, ()),
        forall|p: u16| #[trigger] call_requires(udp, (p,)),
    ensures
        match r {
            Some(port) => call_ensures(ask_tcp, (), Some(port))
                && call_ensures(udp, (port,), true),
            None => call_ensures(ask_tcp, (), None::<u16>)
                || exists|p: u16| call_ensures(udp, (p,), false),
        },
{
    OsQueryPortFinder::new().find_port(ask_tcp, udp)
}

} // verus!
