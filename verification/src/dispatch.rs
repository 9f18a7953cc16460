//! The dual-path update dispatcher. An update must return promptly, so the
//! caller first probes the connection's exclusive-access primitive without
//! waiting; the plan made here then says what to do: apply the built
//! activity synchronously, hand the payload to a detached background task,
//! or surface a corrupted lock. A caller that loses the race for immediate
//! access is answered with success at once — contention is never an error.

use vstd::prelude::*;

use crate::errors::RpcError;
use crate::payload::BuiltActivity;
use crate::payload::PresencePayload;
use crate::payload::build_activity;
use crate::payload::is_build_of;

verus! {

/// Outcome of the non-waiting probe of the exclusive-access primitive.
#[derive(Clone, Copy, PartialEq, Eq, Structural, Debug)]
pub enum LockProbe {
    /// Exclusive access was taken; it is held until the apply finishes.
    Acquired,
    /// Another operation holds access right now.
    Busy,
    /// A prior holder terminated while holding access.
    Poisoned,
}

/// What the dispatcher does after the probe.
pub enum UpdateAction {
    /// Apply this already-built activity synchronously, access being held.
    ApplyNow(BuiltActivity),
    /// Hand this payload to a detached background task that will wait for
    /// access, build, and apply; its failure is logged, never propagated.
    Defer(PresencePayload),
    /// Do nothing: the lock is corrupted and the caller is told so.
    Abort,
}

/// The dispatcher's plan: the action to take, and the reply the caller gets
/// before (or without) any apply — `None` means the caller's reply is the
/// outcome of the synchronous apply itself.
pub struct UpdatePlan {
    pub action: UpdateAction,
    pub prompt_reply: Option<Result<(), RpcError>>,
}

/// The exact relation between a probe outcome, a payload, and the plan.
pub open spec fn plan_matches(plan: UpdatePlan, probe: LockProbe, p: PresencePayload) -> bool {
    match probe {
        LockProbe::Acquired => {
            &&& plan.action matches UpdateAction::ApplyNow(a) && is_build_of(a, p)
            &&& plan.prompt_reply is None
        },
        LockProbe::Busy => {
            &&& plan.action == UpdateAction::Defer(p)
            &&& plan.prompt_reply == Some(Ok::<(), RpcError>(()))
        },
        LockProbe::Poisoned => {
            &&& plan.action is Abort
            &&& plan.prompt_reply == Some(Err::<(), RpcError>(RpcError::LockCorrupted))
        },
    }
}

/// Decides between the immediate and the deferred update path. On the
/// immediate path the activity is built here and applied by the caller; on
/// the contended path the caller is answered `Ok` at once and the payload is
/// deferred unchanged; a poisoned lock is surfaced, never retried silently.
pub fn plan_update(probe: &LockProbe, payload: PresencePayload) -> (plan: UpdatePlan)
    ensures
        plan_matches(plan, *probe, payload),
{
    match probe {
        LockProbe::Acquired => UpdatePlan {
            action: UpdateAction::ApplyNow(build_activity(&payload)),
            prompt_reply: None,
        },
        LockProbe::Busy => UpdatePlan {
            action: UpdateAction::Defer(payload),
            prompt_reply: Some(Ok(())),
        },
        LockProbe::Poisoned => UpdatePlan {
            action: UpdateAction::Abort,
            prompt_reply: Some(Err(RpcError::LockCorrupted)),
        },
    }
}

/// The caller's reply on the immediate path, from the apply outcome.
pub fn immediate_reply(apply_ok: bool) -> (r: Result<(), RpcError>)
    ensures
        r == (if apply_ok {
            Ok::<(), RpcError>(())
        } else {
            Err(RpcError::ApplyFailed)
        }),
{
    if apply_ok {
        Ok(())
    } else {
        Err(RpcError::ApplyFailed)
    }
}

/// Law: an update that loses the race for immediate access still reports
/// success to its caller, and the very payload it carried is deferred
/// unchanged — an update request never fails merely due to contention.
pub proof fn lemma_contention_never_fails(plan: UpdatePlan, p: PresencePayload)
    requires
        plan_matches(plan, LockProbe::Busy, p),
    ensures
        plan.prompt_reply == Some(Ok::<(), RpcError>(())),
        plan.action == UpdateAction::Defer(p),
{
}

} // verus!
