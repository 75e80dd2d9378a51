//! The protocol-engine session configuration.
//!
//! Built exactly once from the resolved IA type, owned by the lease loop,
//! and immutable after construction. Timeout and poll wait are fixed
//! defaults of the runner.

use vstd::prelude::*;
use crate::ia::IaType;

verus! {

/// Seconds the protocol engine may spend acquiring a lease before its
/// session construction or exchange is considered failed.
pub const DEFAULT_TIMEOUT: u32 = 480;

/// Seconds one poll call may block waiting for protocol readiness.
pub const POLL_WAIT_TIME: u32 = 5;

/// Everything the protocol engine needs to open a DHCPv6 session.
#[derive(Debug)]
pub struct SessionConfig {
    /// Target interface; non-empty, validated by the caller.
    pub iface_name: String,
    /// Which identity-association kind the session requests.
    pub ia_type: IaType,
    /// Acquisition timeout in seconds.
    pub timeout: u32,
    /// Poll-wait duration in seconds.
    pub poll_wait: u32,
}

impl SessionConfig {
    /// A configuration is well formed when its interface name is non-empty
    /// and its durations are the runner's fixed defaults.
    pub open spec fn wf(&self) -> bool {
        &&& self.iface_name@.len() > 0
        &&& self.timeout == DEFAULT_TIMEOUT
        &&& self.poll_wait == POLL_WAIT_TIME
    }

    /// Builds the session configuration for `iface_name` and the resolved
    /// IA type, with the default timeout and poll wait.
    pub fn new(iface_name: String, ia_type: IaType) -> (c: Self)
        requires
            iface_name@.len() > 0,
        ensures
            c.iface_name == iface_name,
            c.ia_type == ia_type,
            c.wf(),
    {
        SessionConfig { iface_name, ia_type, timeout: DEFAULT_TIMEOUT, poll_wait: POLL_WAIT_TIME }
    }
}

} // verus!
