//! The reservation ledger: tracks the ports this process currently
//! considers reserved, and wraps the fallback composer so that a port
//! already handed out is never handed out again.

use vstd::prelude::*;
use crate::is_port_available::probed_available;
use crate::port_finders::scanning_with_fallback_port_finder::ScanningWithFallbackPortFinder;

verus! {

/// Cap on how many candidates one reservation call will consider. There
/// are only 65536 distinct port numbers, so a search that has looked at
/// more candidates than that is spinning over ports already reserved and
/// is abandoned rather than retried forever.
pub const MAX_RESERVE_ATTEMPTS: usize = 65536;

/// Appending a fresh value keeps a sequence duplicate-free, and its set of
/// elements grows by exactly that value.
proof fn lemma_push_to_set(s: Seq<u16>, p: u16)
    ensures
        s.push(p).to_set() == s.to_set().insert(p),
        s.no_duplicates() && !s.contains(p) ==> s.push(p).no_duplicates(),
{
    assert forall|x: u16| s.push(p).to_set().contains(x) implies s.to_set().insert(p).contains(
        x,
    ) by {
        let i = choose|i: int| 0 <= i < s.push(p).len() && s.push(p)[i] == x;
        if i < s.len() {
            assert(s[i] == x);
        }
    }
    assert forall|x: u16| s.to_set().insert(p).contains(x) implies s.push(p).to_set().contains(
        x,
    ) by {
        if x == p {
            assert(s.push(p)[s.len() as int] == x);
        } else {
            let i = choose|i: int| 0 <= i < s.len() && s[i] == x;
            assert(s.push(p)[i] == x);
        }
    }
    assert(s.push(p).to_set() =~= s.to_set().insert(p));
    if s.no_duplicates() && !s.contains(p) {
        assert forall|i: int, j: int|
            0 <= i < s.push(p).len() && 0 <= j < s.push(p).len() && i != j implies s.push(p)[i]
            != s.push(p)[j] by {
            if i < s.len() && j < s.len() {
                assert(s[i] != s[j]);
            } else if j == s.len() {
                assert(s.contains(s[i]));
            } else {
                assert(s.contains(s[j]));
            }
        }
    }
}

/// Removing the one index holding a value removes exactly that value from
/// a duplicate-free sequence's set of elements.
proof fn lemma_remove_to_set(s: Seq<u16>, i: int)
    requires
        s.no_duplicates(),
        0 <= i < s.len(),
    ensures
        s.remove(i).to_set() == s.to_set().remove(s[i]),
        s.remove(i).no_duplicates(),
{
    s.remove_ensures(i);
    let p = s[i];
    assert forall|x: u16| s.remove(i).to_set().contains(x) implies s.to_set().remove(p).contains(
        x,
    ) by {
        let j = choose|j: int| 0 <= j < s.remove(i).len() && s.remove(i)[j] == x;
        if j < i {
            assert(s[j] == x);
        } else {
            assert(s[j + 1] == x);
        }
    }
    assert forall|x: u16| s.to_set().remove(p).contains(x) implies s.remove(i).to_set().contains(
        x,
    ) by {
        let j = choose|j: int| 0 <= j < s.len() && s[j] == x;
        if j < i {
            assert(s.remove(i)[j] == x);
        } else {
            assert(s.remove(i)[j - 1] == x);
        }
    }
    assert(s.remove(i).to_set() =~= s.to_set().remove(p));
    assert forall|a: int, b: int|
        0 <= a < s.remove(i).len() && 0 <= b < s.remove(i).len() && a != b implies s.remove(i)[a]
        != s.remove(i)[b] by {
        let sa: int = if a < i { a } else { a + 1 };
        let sb: int = if b < i { b } else { b + 1 };
        assert(s.remove(i)[a] == s[sa] && s.remove(i)[b] == s[sb]);
    }
}

/// Whether `port` occurs in `ports`.
fn seq_holds_port(ports: &Vec<u16>, port: u16) -> (r: bool)
    ensures
        r == ports@.contains(port),
{
    let mut idx: usize = 0;
    while idx < ports.len()
        invariant
            idx <= ports@.len(),
            forall|k: int| 0 <= k < idx ==> ports@[k] != port,
        decreases ports@.len() - idx,
    {
        if ports[idx] == port {
            return true;
        }
        idx = idx + 1;
    }
    false
}

/// The position of `port` in `ports`, when it occurs.
fn seq_find_port(ports: &Vec<u16>, port: u16) -> (r: Option<usize>)
    ensures
        match r {
            Some(idx) => idx < ports@.len() && ports@[idx as int] == port,
            None => !ports@.contains(port),
        },
{
    let mut idx: usize = 0;
    while idx < ports.len()
        invariant
            idx <= ports@.len(),
            forall|k: int| 0 <= k < idx ==> ports@[k] != port,
        decreases ports@.len() - idx,
    {
        if ports[idx] == port {
            return Some(idx);
        }
        idx = idx + 1;
    }
    None
}

/// The in-process reservation ledger: an in-use set of ports together with
/// the composed finder used to discover fresh candidates.
pub struct ReservedPortFinder<const MIN: u16, const MAX: u16> {
    finder: ScanningWithFallbackPortFinder<MIN, MAX>,
    ports_in_use: Vec<u16>,
}

impl<const MIN: u16, const MAX: u16> ReservedPortFinder<MIN, MAX> {
    /// The set of ports currently considered reserved by this ledger.
    pub closed spec fn in_use(self) -> Set<u16> {
        self.ports_in_use@.to_set()
    }

    /// The composed finder the ledger draws candidates from.
    pub closed spec fn finder_state(self) -> ScanningWithFallbackPortFinder<MIN, MAX> {
        self.finder
    }

    /// The in-use ports are recorded without duplicates, so the ledger's
    /// size always equals the number of distinct reserved ports.
    pub closed spec fn wf(self) -> bool {
        self.finder.wf() && self.ports_in_use@.no_duplicates()
    }

    pub fn new() -> (r: Self)
        requires
            MIN < MAX,
        ensures
            r.wf(),
            r.in_use() == Set::<u16>::empty(),
            r.finder_state().scanner_state().cursor() == MIN,
            r.finder_state().scanner_state().found() == 0,
    {
        let ports_in_use: Vec<u16> = Vec::new();
        proof {
            assert(ports_in_use@.to_set() =~= Set::<u16>::empty());
        }
        Self { finder: ScanningWithFallbackPortFinder::new(), ports_in_use }
    }

    /// Sets a port to be permanently reserved, idempotently: reserving a
    /// port already in the in-use set leaves the ledger as it was.
    ///
    /// Reservations only affect this ledger.
    pub fn reserve_port(&mut self, port: u16)
        requires
            old(self).wf(),
        ensures
            final(self).wf(),
            final(self).in_use() == old(self).in_use().insert(port),
            final(self).finder_state() == old(self).finder_state(),
    {
        if !seq_holds_port(&self.ports_in_use, port) {
            proof {
                lemma_push_to_set(self.ports_in_use@, port);
            }
            self.ports_in_use.push(port);
        } else {
            proof {
                assert(old(self).in_use() =~= old(self).in_use().insert(port));
            }
        }
    }

    /// Draw candidates from the composed finder until one is found that is
    /// not already in use; record and return it. A candidate already in
    /// use is discarded and the search continues. The search gives up when
    /// the finder itself is exhausted, or after `MAX_RESERVE_ATTEMPTS`
    /// candidates, by which point it must have been seeing reserved ports
    /// over and over. Failure therefore carries evidence: the OS probe can
    /// decline, or the UDP probe can refuse some port, or some approved
    /// candidate was already reserved — so with an empty ledger and probes
    /// that always deliver, success is guaranteed.
    #[must_use]
    #[verifier::loop_isolation(false)]
    pub fn reserve_random_port<T, U, A>(&mut self, tcp: T, udp: U, ask_tcp: A) -> (r: Option<u16>)
        where
            T: Fn(u16) -> bool + Copy,
            U: Fn(u16) -> bool + Copy,
            A: Fn() -> Option<u16> + Copy,
        requires
            old(self).wf(),
            forall|p: u16| #[trigger] call_requires(tcp, (p,)),
            forall|p: u16| #[trigger] call_requires(udp, (p,)),
            call_requires(ask_tcp, ()),
        ensures
            final(self).wf(),
            match r {
                Some(port) => {
                    &&& !old(self).in_use().contains(port)
                    &&& final(self).in_use() == old(self).in_use().insert(port)
                    &&& call_ensures(udp, (port,), true)
                    &&& probed_available(tcp, udp, port) || call_ensures(ask_tcp, (), Some(port))
                },
                None => {
                    &&& final(self).in_use() == old(self).in_use()
                    &&& {
                        ||| call_ensures(ask_tcp, (), None::<u16>)
                        ||| exists|p: u16| call_ensures(udp, (p,), false)
                        ||| exists|p: u16|
                            old(self).in_use().contains(p) && call_ensures(udp, (p,), true)
                    }
                },
            },
    {
        let ghost used0 = self.ports_in_use@;
        let mut attempts: usize = 0;
        // As long as the port finder can keep finding ports, we keep
        // spinning, and checking if the port is in use. When a free port
        // is found, we record and return it.
        while attempts < MAX_RESERVE_ATTEMPTS
            invariant
                attempts <= MAX_RESERVE_ATTEMPTS,
                self.wf(),
                self.ports_in_use@ == used0,
                0 < attempts ==> exists|p: u16|
                    used0.to_set().contains(p) && call_ensures(udp, (p,), true),
            decreases MAX_RESERVE_ATTEMPTS - attempts,
        {
            match self.finder.find_port(tcp, udp, ask_tcp) {
                Some(port) => {
                    if !seq_holds_port(&self.ports_in_use, port) {
                        proof {
                            lemma_push_to_set(self.ports_in_use@, port);
                        }
                        self.ports_in_use.push(port);
                        return Some(port);
                    }
                    proof {
                        assert(used0.to_set().contains(port) && call_ensures(
                            udp,
                            (port,),
                            true,
                        ));
                    }
                },
                None => {
                    return None;
                },
            }
            attempts = attempts + 1;
        }
        proof {
            let p = choose|p: u16|
                used0.to_set().contains(p) && call_ensures(udp, (p,), true);
            assert(old(self).in_use().contains(p) && call_ensures(udp, (p,), true));
        }
        None
    }

    /// Whether the ledger currently considers `port` reserved.
    pub fn is_reserved(&self, port: u16) -> (r: bool)
        ensures
            r == self.in_use().contains(port),
    {
        seq_holds_port(&self.ports_in_use, port)
    }

    /// How many distinct ports the ledger currently holds as reserved.
    pub fn reserved_count(&self) -> (r: usize)
        requires
            self.wf(),
        ensures
            r == self.in_use().len(),
    {
        proof {
            self.ports_in_use@.unique_seq_to_set();
        }
        self.ports_in_use.len()
    }

    /// Removes the port from the in-use set if present; removing an absent
    /// port is a no-op, never an error.
    pub fn free_port(&mut self, port: u16)
        requires
            old(self).wf(),
        ensures
            final(self).wf(),
            final(self).in_use() == old(self).in_use().remove(port),
            final(self).finder_state() == old(self).finder_state(),
    {
        match seq_find_port(&self.ports_in_use, port) {
            Some(idx) => {
                proof {
                    lemma_remove_to_set(self.ports_in_use@, idx as int);
                }
                self.ports_in_use.remove(idx);
            },
            None => {
                proof {
                    assert(old(self).in_use() =~= old(self).in_use().remove(port));
                }
            },
        }
    }
}

/// Reserving the same explicit port twice in a row succeeds both times and
/// is equivalent, state-wise, to reserving it once: the in-use set after
/// the second reservation is the set after the first.
pub proof fn lemma_reserve_port_idempotent(in_use: Set<u16>, port: u16)
    ensures
        in_use.insert(port).insert(port) == in_use.insert(port),
{
    assert(in_use.insert(port).insert(port) =~= in_use.insert(port));
}

} // verus!
