//! The dispatch policy: whether a completed lease invokes the external
//! handler, and with what arguments.
//!
//! The argument list is the same for every IA type — interface name,
//! address, prefix length, preferred lifetime, valid lifetime, in that
//! order, numbers rendered base-10. The invocation condition differs per
//! IA type: prefix delegation always invokes, even with an empty dispatch
//! target (starting the handler then fails, which the runner treats as
//! fatal); the two address kinds invoke only when a target is configured;
//! an unrecognized IA type never invokes and is reported instead.

use vstd::prelude::*;
use crate::decimal::dec_rep;
use crate::decimal::u32_to_dec;
use crate::lease::Lease;
use crate::lease::LeaseIaType;

verus! {

/// An external-handler invocation, ready to run: the program (the
/// configured dispatch target) and its positional arguments.
#[derive(Debug)]
pub struct HandlerCommand {
    pub program: String,
    pub args: Vec<String>,
}

/// The handler's argument contract: exactly five positional arguments —
/// interface name, address in textual form, then prefix length, preferred
/// lifetime and valid lifetime as base-10 decimal strings.
pub open spec fn handler_args_match(args: Seq<String>, iface: Seq<char>, lease: Lease) -> bool {
    &&& args.len() == 5
    &&& args[0]@ == iface
    &&& args[1]@ == lease.addr@
    &&& args[2]@ == dec_rep(lease.prefix_len as nat)
    &&& args[3]@ == dec_rep(lease.preferred_life as nat)
    &&& args[4]@ == dec_rep(lease.valid_life as nat)
}

/// A command is the right invocation for a lease when its program is the
/// configured dispatch target and its arguments meet the handler's
/// argument contract.
pub open spec fn command_matches(
    cmd: HandlerCommand,
    iface: Seq<char>,
    dispatch_path: Seq<char>,
    lease: Lease,
) -> bool {
    &&& cmd.program@ == dispatch_path
    &&& handler_args_match(cmd.args@, iface, lease)
}

/// The per-IA-type invocation condition: prefix delegation always, the two
/// address kinds only with a non-empty dispatch target, anything else
/// never.
pub open spec fn invocation_due(ia_type: LeaseIaType, dispatch_path: Seq<char>) -> bool {
    match ia_type {
        LeaseIaType::PrefixDelegation => true,
        LeaseIaType::TemporaryAddresses => dispatch_path.len() > 0,
        LeaseIaType::NonTemporaryAddresses => dispatch_path.len() > 0,
        LeaseIaType::Unrecognized => false,
    }
}

/// What the dispatcher decided for one lease: run the handler, do nothing,
/// or report the lease's IA type as an internal inconsistency (at error
/// severity, without invoking anything).
pub enum DispatchDecision {
    Invoke(HandlerCommand),
    Skip,
    Inconsistent,
}

/// Builds the handler invocation for one lease.
fn build_handler_command(iface_name: &str, lease: &Lease, dispatch_path: &str) -> (cmd:
    HandlerCommand)
    ensures
        command_matches(cmd, iface_name@, dispatch_path@, *lease),
{
    let mut args: Vec<String> = Vec::new();
    args.push(iface_name.to_owned());
    args.push(lease.addr.clone());
    args.push(u32_to_dec(lease.prefix_len as u32));
    args.push(u32_to_dec(lease.preferred_life));
    args.push(u32_to_dec(lease.valid_life));
    HandlerCommand { program: dispatch_path.to_owned(), args }
}

/// Applies the dispatch policy to one completed lease.
///
/// The decision is `Invoke` exactly when the lease's IA type makes an
/// invocation due — for prefix delegation even with an empty dispatch
/// target, whose invocation then cannot start and is treated as fatal by
/// the runner; `Skip` exactly when an address-kind lease meets an empty
/// target; `Inconsistent` exactly when the IA type is unrecognized.
pub fn decide_dispatch(iface_name: &str, lease: &Lease, dispatch_path: &str) -> (d:
    DispatchDecision)
    ensures
        d is Invoke <==> invocation_due(lease.ia_type, dispatch_path@),
        d is Skip <==> ((lease.ia_type is TemporaryAddresses || lease.ia_type
            is NonTemporaryAddresses) && dispatch_path@.len() == 0),
        d is Inconsistent <==> lease.ia_type is Unrecognized,
        d matches DispatchDecision::Invoke(cmd) ==> command_matches(
            cmd,
            iface_name@,
            dispatch_path@,
            *lease,
        ),
{
    match lease.ia_type {
        LeaseIaType::PrefixDelegation => DispatchDecision::Invoke(
            build_handler_command(iface_name, lease, dispatch_path),
        ),
        LeaseIaType::TemporaryAddresses => {
            if dispatch_path.is_empty() {
                DispatchDecision::Skip
            } else {
                DispatchDecision::Invoke(build_handler_command(iface_name, lease, dispatch_path))
            }
        },
        LeaseIaType::NonTemporaryAddresses => {
            if dispatch_path.is_empty() {
                DispatchDecision::Skip
            } else {
                DispatchDecision::Invoke(build_handler_command(iface_name, lease, dispatch_path))
            }
        },
        LeaseIaType::Unrecognized => DispatchDecision::Inconsistent,
    }
}

/// A prefix-delegation lease always makes an invocation due, whatever the
/// dispatch target — in particular an empty one, whose handler start then
/// fails fast rather than being silently skipped.
pub proof fn lemma_prefix_delegation_always_invokes(dispatch_path: Seq<char>)
    ensures
        invocation_due(LeaseIaType::PrefixDelegation, dispatch_path),
{
}

/// With an empty dispatch target, a temporary- or non-temporary-address
/// lease never makes an invocation due: the handler is not run and nothing
/// fails.
pub proof fn lemma_address_kinds_skip_empty_target(ia_type: LeaseIaType)
    requires
        ia_type is TemporaryAddresses || ia_type is NonTemporaryAddresses,
    ensures
        !invocation_due(ia_type, Seq::<char>::empty()),
{
}

/// An unrecognized IA type never makes an invocation due, whatever the
/// dispatch target.
pub proof fn lemma_unrecognized_never_invokes(dispatch_path: Seq<char>)
    ensures
        !invocation_due(LeaseIaType::Unrecognized, dispatch_path),
{
}

} // verus!
