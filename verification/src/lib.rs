//! A DHCPv6 client runner library: resolves which identity-association (IA)
//! type to request from command-line intent, builds the protocol-engine
//! session configuration, and decides for every completed lease whether and
//! how an external handler is invoked.
//!
//! The DHCPv6 protocol engine itself (wire encoding, retransmission, lease
//! timers, socket I/O) is an external collaborator; this crate holds the
//! orchestration and dispatch policy, with contracts.

mod config;
mod decimal;
mod dispatch;
mod ia;
mod lease;
mod poll;

pub use config::DEFAULT_TIMEOUT;
pub use config::POLL_WAIT_TIME;
pub use config::SessionConfig;
pub use decimal::dec_digit;
pub use decimal::dec_rep;
pub use decimal::u32_to_dec;
pub use dispatch::DispatchDecision;
pub use dispatch::HandlerCommand;
pub use dispatch::command_matches;
pub use dispatch::decide_dispatch;
pub use dispatch::handler_args_match;
pub use dispatch::invocation_due;
pub use dispatch::lemma_address_kinds_skip_empty_target;
pub use dispatch::lemma_prefix_delegation_always_invokes;
pub use dispatch::lemma_unrecognized_never_invokes;
pub use ia::IaType;
pub use ia::lemma_resolution_purge;
pub use ia::needs_purge;
pub use ia::purge_dhcpv6_addr;
pub use ia::purge_required;
pub use ia::resolve_ia_type;
pub use ia::spec_resolve;
pub use lease::Lease;
pub use lease::LeaseIaType;
pub use poll::EventOutcome;
pub use poll::FatalError;
pub use poll::LoopAction;
pub use poll::action_for;
pub use poll::poll_cycle;
pub use poll::process_batch;
pub use poll::step;
