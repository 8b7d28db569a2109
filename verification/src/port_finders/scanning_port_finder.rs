//! The scanning finder: walks a fixed port range `[MIN, MAX)` in increasing
//! order, returning the first port the availability prober approves, with a
//! wraparound policy when the cursor reaches the end of the range.

use vstd::prelude::*;
use crate::is_port_available::is_port_available;
use crate::is_port_available::probed_available;
use crate::is_port_available::probed_unavailable;

verus! {

/// When the cursor reaches `MAX` having found fewer ports than this since
/// the last wraparound, the range is treated as exhausted and the finder
/// gives up instead of wrapping. The threshold is a tunable heuristic that
/// separates a productive range, worth rescanning, from a hostile one.
pub const RETRY_FOUND_MIN: u32 = 500;

/// A port finder which scans for ports along a known range.
///
/// `last` is the next port to try; `found_count` counts the ports returned
/// since the last wraparound.
pub struct ScanningPortFinder<const MIN: u16, const MAX: u16> {
    last: u16,
    found_count: u32,
}

impl<const MIN: u16, const MAX: u16> ScanningPortFinder<MIN, MAX> {
    /// The cursor never leaves `[MIN, MAX]`, and each port found since the
    /// last wraparound advanced the cursor by at least one, so `found_count`
    /// never exceeds the cursor's progress.
    pub closed spec fn wf(self) -> bool {
        MIN <= self.last <= MAX && self.found_count <= self.last - MIN
    }

    /// The next port a scan would consider.
    pub closed spec fn cursor(self) -> u16 {
        self.last
    }

    /// Ports returned since the last wraparound.
    pub closed spec fn found(self) -> u32 {
        self.found_count
    }

    /// How a successful scan relates the finder's state before (`pre`) and
    /// after (`post`) the call to the `port` it returned: the port lies in
    /// the range, both probes approved it, every port between the scan's
    /// starting point and `port` was refused by a probe, and the cursor
    /// moves one past `port`. A call that starts with the cursor at `MAX`
    /// first wraps, which is allowed only after a productive pass.
    pub open spec fn found_transition<T, U>(pre: Self, post: Self, port: u16, tcp: T, udp: U) -> bool
        where
            T: Fn(u16) -> bool,
            U: Fn(u16) -> bool,
    {
        &&& MIN <= port < MAX
        &&& probed_available(tcp, udp, port)
        &&& post.cursor() == port + 1
        &&& (pre.cursor() < MAX ==> {
            &&& port >= pre.cursor()
            &&& post.found() == pre.found() + 1
            &&& forall|q: u16| pre.cursor() <= q < port ==> probed_unavailable(tcp, udp, q)
        })
        &&& (pre.cursor() >= MAX ==> {
            &&& pre.found() >= RETRY_FOUND_MIN
            &&& post.found() == 1
            &&& forall|q: u16| MIN <= q < port ==> probed_unavailable(tcp, udp, q)
        })
    }

    /// How a failed scan relates the states around the call: either the
    /// finder had already given up (cursor at `MAX` after an unproductive
    /// pass) and nothing changes, or every port from the scan's starting
    /// point to `MAX` was refused by a probe.
    pub open spec fn exhausted_transition<T, U>(pre: Self, post: Self, tcp: T, udp: U) -> bool
        where
            T: Fn(u16) -> bool,
            U: Fn(u16) -> bool,
    {
        &&& (pre.cursor() >= MAX && pre.found() < RETRY_FOUND_MIN ==> post == pre)
        &&& (pre.cursor() >= MAX && pre.found() >= RETRY_FOUND_MIN ==> {
            &&& post.cursor() == MIN
            &&& post.found() == 0
            &&& forall|q: u16| MIN <= q < MAX ==> probed_unavailable(tcp, udp, q)
        })
        &&& (pre.cursor() < MAX ==> {
            &&& post == pre
            &&& forall|q: u16| pre.cursor() <= q < MAX ==> probed_unavailable(tcp, udp, q)
        })
    }

    pub fn new() -> (r: Self)
        requires
            MIN < MAX,
        ensures
            r.wf(),
            r.cursor() == MIN,
            r.found() == 0,
    {
        Self { last: MIN, found_count: 0 }
    }

    /// Scan forward from the cursor and return the first available port.
    ///
    /// On success the cursor moves one past the returned port. When the
    /// cursor has reached `MAX`: if fewer than `RETRY_FOUND_MIN` ports were
    /// found since the last wraparound the finder stays exhausted, otherwise
    /// the cursor wraps to `MIN` and the scan starts over.
    #[verifier::loop_isolation(false)]
    pub fn find_port<T, U>(&mut self, tcp: T, udp: U) -> (r: Option<u16>)
        where
            T: Fn(u16) -> bool + Copy,
            U: Fn(u16) -> bool + Copy,
        requires
            old(self).wf(),
            forall|p: u16| #[trigger] call_requires(tcp, (p,)),
            forall|p: u16| #[trigger] call_requires(udp, (p,)),
        ensures
            final(self).wf(),
            match r {
                Some(port) => Self::found_transition(*old(self), *final(self), port, tcp, udp),
                None => Self::exhausted_transition(*old(self), *final(self), tcp, udp),
            },
    {
        // This is hit if we loop round the port list,
        // and come back to the start.
        if self.last >= MAX {
            // We found very few ports, so don't bother wrapping.
            if self.found_count < RETRY_FOUND_MIN {
                return None;
            }
            // Otherwise reset the cursor and wrap around.
            // We will probably find the ports we used last time.
            self.last = MIN;
            self.found_count = 0;
        }

        let ghost s0 = *self;
        let mut candidate: u16 = self.last;
        while candidate < MAX
            invariant
                *self == s0,
                s0.last <= candidate <= MAX,
                forall|q: u16| s0.last <= q < candidate ==> probed_unavailable(tcp, udp, q),
            decreases MAX - candidate,
        {
            if is_port_available(candidate, tcp, udp) {
                self.last = candidate + 1;
                self.found_count = self.found_count + 1;
                return Some(candidate);
            }
            candidate = candidate + 1;
        }

        None
    }
}

/// A scanning finder that has reached the end of its range after an
/// unproductive pass stays exhausted: whatever the probes would answer,
/// any further call returns nothing and leaves the finder unchanged.
pub proof fn lemma_exhausted_finder_stays_exhausted<const MIN: u16, const MAX: u16, T, U>(
    s0: ScanningPortFinder<MIN, MAX>,
    s1: ScanningPortFinder<MIN, MAX>,
    r: Option<u16>,
    tcp: T,
    udp: U,
)
    where
        T: Fn(u16) -> bool,
        U: Fn(u16) -> bool,
    requires
        s0.cursor() >= MAX,
        s0.found() < RETRY_FOUND_MIN,
        match r {
            Some(port) => ScanningPortFinder::found_transition(s0, s1, port, tcp, udp),
            None => ScanningPortFinder::exhausted_transition(s0, s1, tcp, udp),
        },
    ensures
        r is None,
        s1 == s0,
{
}

/// Successive successful calls to a scanning finder that do not wrap
/// return strictly increasing port numbers within `[MIN, MAX)`: the second
/// scan starts one past the first port found, so its result lies strictly
/// above it.
pub proof fn lemma_scanning_ports_increase<const MIN: u16, const MAX: u16, T, U>(
    s0: ScanningPortFinder<MIN, MAX>,
    s1: ScanningPortFinder<MIN, MAX>,
    s2: ScanningPortFinder<MIN, MAX>,
    p1: u16,
    p2: u16,
    tcp: T,
    udp: U,
)
    where
        T: Fn(u16) -> bool,
        U: Fn(u16) -> bool,
    requires
        ScanningPortFinder::found_transition(s0, s1, p1, tcp, udp),
        ScanningPortFinder::found_transition(s1, s2, p2, tcp, udp),
        s1.cursor() < MAX,
    ensures
        p1 < p2,
        MIN <= p1 < MAX,
        MIN <= p2 < MAX,
{
}

} // verus!
