//! The availability prober: decides whether a port is free for use by
//! combining a TCP probe and a UDP probe.
//!
//! The probes themselves bind real sockets and are supplied by the caller;
//! a port counts as available only when both probes approve it.

use vstd::prelude::*;

verus! {

/// Holds when `tcp` and `udp` can both report that `port` is free:
/// the availability check succeeded on every bind combination probed.
pub open spec fn probed_available<T, U>(tcp: T, udp: U, port: u16) -> bool
    where
        T: Fn(u16) -> bool,
        U: Fn(u16) -> bool,
{
    call_ensures(tcp, (port,), true) && call_ensures(udp, (port,), true)
}

/// Holds when one of the two probes reported `port` as taken.
pub open spec fn probed_unavailable<T, U>(tcp: T, udp: U, port: u16) -> bool
    where
        T: Fn(u16) -> bool,
        U: Fn(u16) -> bool,
{
    call_ensures(tcp, (port,), false) || call_ensures(udp, (port,), false)
}

/// Check if a port is available on both TCP and UDP.
///
/// A bind failure on either protocol makes the whole check fail; the answer
/// is a plain boolean, never an error.
pub fn is_port_available<T, U>(port: u16, tcp: T, udp: U) -> (r: bool)
    where
        T: Fn(u16) -> bool + Copy,
        U: Fn(u16) -> bool + Copy,
    requires
        call_requires(tcp, (port,)),
        call_requires(udp, (port,)),
    ensures
        r ==> probed_available(tcp, udp, port),
        !r ==> probed_unavailable(tcp, udp, port),
{
    tcp(port) && udp(port)
}

} // verus!
