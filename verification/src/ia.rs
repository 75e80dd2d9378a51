//! Identity-association (IA) type resolution and the address-purge policy.
//!
//! The resolver turns command-line intent (two optional, mutually exclusive
//! flags) into exactly one [`IaType`]. Whenever the resolved type is not
//! prefix delegation, stale addresses from earlier lease cycles must be
//! purged from the interface before a new session is configured; delegated
//! acquisitions never purge, because prefix delegation does not occupy
//! interface addresses.

use vstd::prelude::*;

verus! {

/// The three identity-association kinds a DHCPv6 session can request.
#[derive(Clone, Copy, Debug, PartialEq, Eq, Structural)]
pub enum IaType {
    PrefixDelegation,
    TemporaryAddresses,
    NonTemporaryAddresses,
}

/// Which IA type a pair of command-line flags resolves to: the
/// prefix-delegation flag wins, then the temporary-addresses flag, and
/// with neither the default is non-temporary addresses.
pub open spec fn spec_resolve(request_pd: bool, request_ta: bool) -> IaType {
    if request_pd {
        IaType::PrefixDelegation
    } else if request_ta {
        IaType::TemporaryAddresses
    } else {
        IaType::NonTemporaryAddresses
    }
}

/// An address purge precedes session setup exactly when the resolved IA
/// type is not prefix delegation.
pub open spec fn purge_required(ia_type: IaType) -> bool {
    ia_type !is PrefixDelegation
}

/// Removes stale addresses assigned to `iface_name` by earlier DHCPv6
/// lease cycles of the same non-delegation IA type. Required to be
/// idempotent and to leave addresses of other owners alone.
///
/// Known gap: this implementation performs no removal. A real purge must
/// talk to the interface-configuration layer, which lies outside this
/// library; callers that need stale addresses gone must supply it there.
pub fn purge_dhcpv6_addr(iface_name: &str) {
    let _ = iface_name;
}

/// Resolves the requested IA type from the two command-line flags and, for
/// the non-delegation kinds, purges stale addresses from the interface
/// before the caller builds a session configuration.
pub fn resolve_ia_type(iface_name: &str, request_pd: bool, request_ta: bool) -> (r: IaType)
    ensures
        r == spec_resolve(request_pd, request_ta),
{
    if request_pd {
        IaType::PrefixDelegation
    } else if request_ta {
        purge_dhcpv6_addr(iface_name);
        IaType::TemporaryAddresses
    } else {
        purge_dhcpv6_addr(iface_name);
        IaType::NonTemporaryAddresses
    }
}

/// Whether a purge must run for the given resolved IA type.
pub fn needs_purge(ia_type: IaType) -> (b: bool)
    ensures
        b == purge_required(ia_type),
{
    match ia_type {
        IaType::PrefixDelegation => false,
        IaType::TemporaryAddresses => true,
        IaType::NonTemporaryAddresses => true,
    }
}

/// Resolution is total and deterministic: every flag combination yields
/// exactly one IA type — prefix delegation exactly when its flag is set,
/// temporary addresses exactly when only the temporary flag is set, and
/// the non-temporary default otherwise — and a purge is required exactly
/// when the resolved type is not prefix delegation.
pub proof fn lemma_resolution_purge(request_pd: bool, request_ta: bool)
    ensures
        spec_resolve(request_pd, request_ta) is PrefixDelegation <==> request_pd,
        spec_resolve(request_pd, request_ta) is TemporaryAddresses <==> (!request_pd && request_ta),
        spec_resolve(request_pd, request_ta) is NonTemporaryAddresses <==> (!request_pd
            && !request_ta),
        purge_required(spec_resolve(request_pd, request_ta)) <==> !request_pd,
{
}

} // verus!
