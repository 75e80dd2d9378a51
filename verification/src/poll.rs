//! The lease loop's steady state: turning protocol-engine results into
//! actions.
//!
//! Each poll cycle yields a batch of events; the engine's event processor
//! turns each event into an [`EventOutcome`]. This module decides, per
//! outcome and strictly in batch order, what the runner does next: run the
//! handler, log a recoverable processing error and continue, report an
//! inconsistent lease, or nothing. A failed poll call itself is fatal —
//! the engine is assumed never to poll-fail recoverably at this layer.

use vstd::prelude::*;
use crate::dispatch::DispatchDecision;
use crate::dispatch::HandlerCommand;
use crate::dispatch::command_matches;
use crate::dispatch::decide_dispatch;
use crate::dispatch::invocation_due;
use crate::lease::Lease;

verus! {

/// What the engine's event processor reported for one event: a completed
/// lease, an exchange still in progress, or a per-event processing error
/// (recoverable; its message is logged at error severity).
pub enum EventOutcome {
    LeaseObtained(Lease),
    InProgress,
    ProcessingFailed(String),
}

/// What the runner does in reaction to one event outcome.
pub enum LoopAction {
    /// Start the external handler; failure to start is fatal.
    RunHandler(HandlerCommand),
    /// Nothing to do for this event.
    DoNothing,
    /// Log the processing error's message at error severity and go on.
    LogProcessingError(String),
    /// Log the lease's unrecognized IA type at error severity as an
    /// internal inconsistency; the handler is not invoked.
    LogInconsistency(Lease),
}

/// A condition the runner has no recovery for: it aborts the process.
pub enum FatalError {
    /// The protocol-engine session could not be constructed.
    SessionInitFailed(String),
    /// A poll call on the engine failed.
    PollFailed(String),
    /// The external handler could not be started.
    HandlerStartFailed(String),
}

/// The action that answers an event outcome: nothing while an exchange is
/// in progress, a log entry for a processing error, and for a completed
/// lease whatever the dispatch policy decides.
pub open spec fn action_for(
    outcome: EventOutcome,
    iface: Seq<char>,
    dispatch_path: Seq<char>,
    action: LoopAction,
) -> bool {
    match outcome {
        EventOutcome::InProgress => action is DoNothing,
        EventOutcome::ProcessingFailed(msg) => {
            &&& action matches LoopAction::LogProcessingError(logged)
            &&& logged@ == msg@
        },
        EventOutcome::LeaseObtained(lease) => {
            if invocation_due(lease.ia_type, dispatch_path) {
                &&& action matches LoopAction::RunHandler(cmd)
                &&& command_matches(cmd, iface, dispatch_path, lease)
            } else if lease.ia_type is Unrecognized {
                &&& action matches LoopAction::LogInconsistency(reported)
                &&& reported == lease
            } else {
                action is DoNothing
            }
        },
    }
}

/// Decides the runner's action for one event outcome.
pub fn step(iface_name: &str, dispatch_path: &str, outcome: EventOutcome) -> (action: LoopAction)
    ensures
        action_for(outcome, iface_name@, dispatch_path@, action),
{
    match outcome {
        EventOutcome::InProgress => LoopAction::DoNothing,
        EventOutcome::ProcessingFailed(msg) => LoopAction::LogProcessingError(msg),
        EventOutcome::LeaseObtained(lease) => {
            match decide_dispatch(iface_name, &lease, dispatch_path) {
                DispatchDecision::Invoke(cmd) => LoopAction::RunHandler(cmd),
                DispatchDecision::Skip => LoopAction::DoNothing,
                DispatchDecision::Inconsistent => LoopAction::LogInconsistency(lease),
            }
        },
    }
}

/// Decides the runner's actions for one whole poll batch, strictly in the
/// order the engine returned the events.
///
/// Every outcome gets exactly one action: a processing error on one event
/// is answered with a log action and does not prevent any later event in
/// the batch from being processed.
pub fn process_batch(iface_name: &str, dispatch_path: &str, outcomes: Vec<EventOutcome>) -> (
    actions: Vec<LoopAction>)
    ensures
        actions@.len() == outcomes@.len(),
        forall|i: int|
            0 <= i < outcomes@.len() ==> action_for(
                outcomes@[i],
                iface_name@,
                dispatch_path@,
                #[trigger] actions@[i],
            ),
{
    let ghost orig = outcomes@;
    let mut remaining = outcomes;
    let mut actions: Vec<LoopAction> = Vec::new();
    while remaining.len() > 0
        invariant
            actions@.len() + remaining@.len() == orig.len(),
            remaining@ == orig.subrange(actions@.len() as int, orig.len() as int),
            forall|i: int|
                0 <= i < actions@.len() ==> action_for(
                    orig[i],
                    iface_name@,
                    dispatch_path@,
                    #[trigger] actions@[i],
                ),
        decreases remaining@.len(),
    {
        let ghost done = actions@.len() as int;
        let outcome = remaining.remove(0);
        proof {
            assert(orig.subrange(done, orig.len() as int).remove(0) =~= orig.subrange(
                done + 1,
                orig.len() as int,
            ));
            assert(outcome == orig[done]);
        }
        let action = step(iface_name, dispatch_path, outcome);
        actions.push(action);
    }
    proof {
        assert(outcomes@ == orig);
    }
    actions
}

/// Decides what one whole poll cycle does: a failed poll call is fatal,
/// a successful one yields one action per event, in batch order.
pub fn poll_cycle(iface_name: &str, dispatch_path: &str, poll_result: Result<
    Vec<EventOutcome>,
    String,
>) -> (r: Result<Vec<LoopAction>, FatalError>)
    ensures
        poll_result matches Ok(outcomes) ==> (r matches Ok(actions) && actions@.len()
            == outcomes@.len() && forall|i: int|
            0 <= i < outcomes@.len() ==> action_for(
                outcomes@[i],
                iface_name@,
                dispatch_path@,
                #[trigger] actions@[i],
            )),
        poll_result matches Err(msg) ==> (r matches Err(e) && e matches FatalError::PollFailed(
            m,
        ) && m@ == msg@),
{
    match poll_result {
        Ok(outcomes) => Ok(process_batch(iface_name, dispatch_path, outcomes)),
        Err(msg) => Err(FatalError::PollFailed(msg)),
    }
}

} // verus!
