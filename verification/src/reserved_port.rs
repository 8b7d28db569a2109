//! The reserved-port handle: the scoped-ownership object over the ledger.
//!
//! A handle owns exactly one port for its lifetime. It is created by a
//! successful reservation against a ledger, and `release` gives the port
//! back to that ledger, after which the port can be handed out again.
//! Callers that share one ledger across threads keep it behind a lock and
//! release every handle against the same ledger it was drawn from.

use vstd::prelude::*;
use crate::Error;
use crate::is_port_available::probed_available;
use crate::reserved_port_finder::ReservedPortFinder;

verus! {

/// A port that, at the time of reservation, the availability probes
/// reported as free for use by the OS. It is also guaranteed not to clash
/// with other ports reserved through the same ledger.
///
/// The motivation of this library is to allow one to reserve many ports,
/// ensure they don't clash with each other, and then let them go when they
/// are no longer needed.
#[derive(Debug)]
pub struct ReservedPort {
    port: u16,
}

impl ReservedPort {
    /// The port this handle owns.
    pub closed spec fn port_spec(self) -> u16 {
        self.port
    }

    fn new(port: u16) -> (r: Self)
        ensures
            r.port_spec() == port,
    {
        Self { port }
    }

    /// Reserve a port chosen by the ledger's search strategies and wrap it
    /// in an owning handle.
    ///
    /// A returned handle owns a port that was not in use before the call
    /// and is recorded as in use after it; the port was approved by the
    /// UDP probe and either by the TCP probe as well, or was assigned by
    /// the OS through `ask_tcp`. When the search finds nothing, the ledger
    /// is unchanged and a port-exhaustion error is reported — and that can
    /// happen only when the OS probe can decline, or the UDP probe can
    /// refuse some port, or an approved candidate was already reserved.
    pub fn random<const MIN: u16, const MAX: u16, T, U, A>(
        finder: &mut ReservedPortFinder<MIN, MAX>,
        tcp: T,
        udp: U,
        ask_tcp: A,
    ) -> (r: Result<Self, Error>)
        where
            T: Fn(u16) -> bool + Copy,
            U: Fn(u16) -> bool + Copy,
            A: Fn() -> Option<u16> + Copy,
        requires
            old(finder).wf(),
            forall|p: u16| #[trigger] call_requires(tcp, (p,)),
            forall|p: u16| #[trigger] call_requires(udp, (p,)),
            call_requires(ask_tcp, ()),
        ensures
            final(finder).wf(),
            match r {
                Ok(handle) => {
                    &&& !old(finder).in_use().contains(handle.port_spec())
                    &&& final(finder).in_use() == old(finder).in_use().insert(handle.port_spec())
                    &&& call_ensures(udp, (handle.port_spec(),), true)
                    &&& probed_available(tcp, udp, handle.port_spec())
                        || call_ensures(ask_tcp, (), Some(handle.port_spec()))
                },
                Err(e) => {
                    &&& e == Error::FailedToReservePort
                    &&& final(finder).in_use() == old(finder).in_use()
                    &&& {
                        ||| call_ensures(ask_tcp, (), None::<u16>)
                        ||| exists|p: u16| call_ensures(udp, (p,), false)
                        ||| exists|p: u16|
                            old(finder).in_use().contains(p) && call_ensures(udp, (p,), true)
                    }
                },
            },
    {
        match finder.reserve_random_port(tcp, udp, ask_tcp) {
            Some(port) => Ok(ReservedPort::new(port)),
            None => Err(Error::FailedToReservePort),
        }
    }

    /// _Permanently_ reserves the given port as being offlimits for the
    /// given ledger.
    ///
    /// This is useful if you have connected to a socket yourself, and wish
    /// to avoid clashing with ports handed out by that ledger. Reserving a
    /// port that is already reserved succeeds and changes nothing.
    #[must_use]
    pub fn reserve_port<const MIN: u16, const MAX: u16>(
        finder: &mut ReservedPortFinder<MIN, MAX>,
        port: u16,
    ) -> (r: Result<(), Error>)
        requires
            old(finder).wf(),
        ensures
            final(finder).wf(),
            r is Ok,
            final(finder).in_use() == old(finder).in_use().insert(port),
            final(finder).finder_state() == old(finder).finder_state(),
    {
        finder.reserve_port(port);
        Ok(())
    }

    /// The owned port value; a pure accessor with no side effect.
    pub fn port(&self) -> (r: u16)
        ensures
            r == self.port_spec(),
    {
        self.port
    }

    /// Give the owned port back to the ledger, consuming the handle: the
    /// port is no longer in use afterwards and can be reserved again.
    pub fn release<const MIN: u16, const MAX: u16>(self, finder: &mut ReservedPortFinder<MIN, MAX>)
        requires
            old(finder).wf(),
        ensures
            final(finder).wf(),
            final(finder).in_use() == old(finder).in_use().remove(self.port_spec()),
            final(finder).finder_state() == old(finder).finder_state(),
    {
        finder.free_port(self.port);
    }
}

/// Two reservations drawn from one ledger while both handles stay alive
/// never share a port: the first port is recorded before the second is
/// drawn, a drawn port is never one already in use, and both stay in the
/// in-use set afterwards.
pub proof fn lemma_live_handles_are_distinct(in_use: Set<u16>, p1: u16, p2: u16)
    requires
        !in_use.contains(p1),
        !in_use.insert(p1).contains(p2),
    ensures
        p1 != p2,
        in_use.insert(p1).insert(p2).contains(p1),
        in_use.insert(p1).insert(p2).contains(p2),
{
}

/// After a handle is released, its port becomes reservable again: the
/// port leaves the in-use set, and reserving it afterwards brings the
/// ledger back to the state it had while the handle was alive.
pub proof fn lemma_released_port_is_reservable(in_use: Set<u16>, port: u16)
    requires
        in_use.contains(port),
    ensures
        !in_use.remove(port).contains(port),
        in_use.remove(port).insert(port) == in_use,
{
    assert(in_use.remove(port).insert(port) =~= in_use);
}

} // verus!
