//! The lease record handed over by the protocol engine.
//!
//! A lease is an immediately-expiring artifact of one poll cycle: produced
//! when a protocol exchange completes, consumed by the dispatcher, never
//! retained. Its address is carried in standard textual notation, which is
//! the form the external handler receives.

use vstd::prelude::*;

verus! {

/// The IA type reported on a lease. The protocol engine's own enumeration
/// is open-ended, so besides the three known kinds a lease can carry an
/// unrecognized value; such a lease is a representational bug, only ever
/// logged, never dispatched.
#[derive(Clone, Copy, Debug, PartialEq, Eq, Structural)]
pub enum LeaseIaType {
    PrefixDelegation,
    TemporaryAddresses,
    NonTemporaryAddresses,
    Unrecognized,
}

/// A completed DHCPv6 lease, reduced to the fields the dispatch policy
/// reads: the reported IA type, the leased or delegated address in textual
/// form, the prefix length, and the two lifetimes in seconds.
#[derive(Debug)]
pub struct Lease {
    pub ia_type: LeaseIaType,
    /// Leased or delegated address, standard textual IP notation. For a
    /// delegated prefix this is the prefix's base address.
    pub addr: String,
    pub prefix_len: u8,
    pub preferred_life: u32,
    pub valid_life: u32,
}

} // verus!
