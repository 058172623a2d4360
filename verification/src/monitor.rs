//! Boundary data from the external metrics provider. The provider itself
//! reads the operating system and lives outside this crate; what crosses
//! the boundary is plain values.

use vstd::prelude::*;

verus! {

/// One network interface's counters, as read in one snapshot.
#[derive(Debug, Clone)]
pub struct NetworkInfo {
    pub interface: String,
    pub bytes_received: u64,
    pub bytes_transmitted: u64,
    pub packets_received: u64,
    pub packets_transmitted: u64,
}

} // verus!
