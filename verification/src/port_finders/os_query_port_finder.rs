//! The OS-query finder: asks the operating system for an ephemeral TCP
//! port, then confirms the candidate is also free on UDP, retrying up to a
//! fixed bound.

use vstd::prelude::*;

verus! {

/// How many OS-assigned candidates to try before giving up. OS-assigned
/// TCP ephemeral ports are not guaranteed to also be free on UDP, so a
/// bounded number of fresh candidates is requested.
pub const NUM_TRIES: usize = 100;

/// A port finder which asks the OS for the port.
pub struct OsQueryPortFinder {}

impl OsQueryPortFinder {
    pub fn new() -> (r: Self) {
        Self {}
    }

    /// Ask the OS for a free ephemeral TCP port and keep the first candidate
    /// that is also free on UDP; after `NUM_TRIES` candidates fail, give up.
    ///
    /// `ask_tcp` binds a TCP socket to port 0 and reports the port the OS
    /// assigned; `udp` probes whether a port is free on UDP. Exhaustion is a
    /// normal outcome, not an error: it signals "try another strategy" — and
    /// it can happen only when the OS probe can decline or the UDP probe can
    /// refuse some port, so probes that always deliver imply success.
    pub fn find_port<A, U>(&mut self, ask_tcp: A, udp: U) -> (r: Option<u16>)
        where
            A: Fn() -> Option<u16> + Copy,
            U: Fn(u16) -> bool + Copy,
        requires
            call_requires(ask_tcp, ()),
            forall|p: u16| #[trigger] call_requires(udp, (p,)),
        ensures
            match r {
                Some(port) => call_ensures(ask_tcp, (), Some(port))
                    && call_ensures(udp, (port,), true),
                None => call_ensures(ask_tcp, (), None::<u16>)
                    || exists|p: u16| call_ensures(udp, (p,), false),
            },
    {
        let mut tries: usize = 0;
        while tries < NUM_TRIES
            invariant
                tries <= NUM_TRIES,
                forall|p: u16| #[trigger] call_requires(udp, (p,)),
                call_requires(ask_tcp, ()),
                0 < tries ==> call_ensures(ask_tcp, (), None::<u16>)
                    || exists|p: u16| call_ensures(udp, (p,), false),
            decreases NUM_TRIES - tries,
        {
            if let Some(port) = ask_tcp() {
                if udp(port) {
                    return Some(port);
                }
                proof {
                    assert(call_ensures(udp, (port,), false));
                }
            }
            tries = tries + 1;
        }
        None
    }
}

} // verus!
