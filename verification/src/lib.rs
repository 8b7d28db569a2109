//! Allocation of TCP/UDP port numbers that are free at allocation time,
//! with an in-process ledger that keeps concurrently held reservations
//! from colliding with each other.
//!
//! Probing whether a port is actually free is an operating-system question;
//! every function here that needs an answer takes the probing functions as
//! arguments, so the search strategies, the fallback policy and the ledger
//! bookkeeping are all ordinary verified code.

use vstd::prelude::*;

pub mod find_unused_port;
pub mod is_port_available;
pub mod port_finders;
pub mod reserved_port;
pub mod reserved_port_finder;

pub use crate::find_unused_port::find_unused_port;
pub use crate::is_port_available::is_port_available;
pub use crate::port_finders::os_query_port_finder::OsQueryPortFinder;
pub use crate::port_finders::scanning_port_finder::ScanningPortFinder;
pub use crate::port_finders::scanning_with_fallback_port_finder::ScanningWithFallbackPortFinder;
pub use crate::reserved_port::ReservedPort;
pub use crate::reserved_port_finder::ReservedPortFinder;

verus! {

/// Failures surfaced by reservation calls.
///
/// `InternalLockError` is reported by callers that guard a shared ledger
/// with a lock and find the lock unusable; the ledger operations themselves
/// never produce it.
#[derive(Debug, PartialEq, Eq)]
pub enum Error {
    InternalLockError,
    FailedToReservePort,
}

} // verus!
