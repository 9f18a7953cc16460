//! The process-wide connection slot: it holds zero or one live connection to
//! the external presence service, identified here by an opaque token. The
//! surrounding process keeps the actual client instance keyed by this token;
//! all lifecycle decisions — lookup, replacement on a later init, draining on
//! close — are made here.

use vstd::prelude::*;

use crate::errors::RpcError;

verus! {

/// The singleton slot. It starts empty, is filled (or refilled) by a
/// successful connection establishment, and is drained by close.
pub struct ConnectionSlot {
    pub handle: Option<u64>,
}

/// What a lookup of the slot reports: the live token, or `NotInitialized`.
pub open spec fn spec_current(h: Option<u64>) -> Result<u64, RpcError> {
    match h {
        Some(t) => Ok(t),
        None => Err(RpcError::NotInitialized),
    }
}

/// The drain transition of close: the slot after it, and what it took out.
pub open spec fn spec_drain(h: Option<u64>) -> (Option<u64>, Option<u64>) {
    (None, h)
}

/// The result a close reports: a no-op success when nothing was drained,
/// otherwise the outcome of shutting the drained instance down.
pub open spec fn spec_close_result(taken: Option<u64>, instance_close_ok: bool) -> Result<
    (),
    RpcError,
> {
    match taken {
        None => Ok(()),
        Some(_) => if instance_close_ok {
            Ok(())
        } else {
            Err(RpcError::CloseFailed)
        },
    }
}

impl ConnectionSlot {
    /// A fresh slot, not yet initialized.
    pub fn new() -> (s: Self)
        ensures
            s.handle is None,
    {
        ConnectionSlot { handle: None }
    }

    /// Copies the current handle out, or reports `NotInitialized`. This is
    /// the only way a caller learns of the live connection, so a drained
    /// slot is never observed as live.
    pub fn current(&self) -> (r: Result<u64, RpcError>)
        ensures
            r == spec_current(self.handle),
    {
        match self.handle {
            Some(t) => Ok(t),
            None => Err(RpcError::NotInitialized),
        }
    }

    /// Stores the handle of a freshly established connection, replacing any
    /// previous one. Called exactly once per successful establishment run,
    /// never on a failed one.
    pub fn store(&mut self, token: u64)
        ensures
            final(self).handle == Some(token),
    {
        self.handle = Some(token);
    }

    /// First half of close: drains the slot, so that every later lookup
    /// reports `NotInitialized`, and hands back what must now be shut down.
    pub fn drain(&mut self) -> (taken: Option<u64>)
        ensures
            final(self).handle == spec_drain(old(self).handle).0,
            taken == spec_drain(old(self).handle).1,
            final(self).handle is None,
            taken == old(self).handle,
    {
        let t = self.handle;
        self.handle = None;
        t
    }
}

/// Second half of close: the result reported to the caller, given whether an
/// instance was drained and, if one was, whether shutting it down succeeded.
pub fn close_result(taken: Option<u64>, instance_close_ok: bool) -> (r: Result<(), RpcError>)
    ensures
        r == spec_close_result(taken, instance_close_ok),
{
    match taken {
        None => Ok(()),
        Some(_) => if instance_close_ok {
            Ok(())
        } else {
            Err(RpcError::CloseFailed)
        },
    }
}

/// The result reported by clear, given whether the external client accepted
/// the request once exclusive access was held.
pub fn clear_result(instance_clear_ok: bool) -> (r: Result<(), RpcError>)
    ensures
        r == (if instance_clear_ok {
            Ok::<(), RpcError>(())
        } else {
            Err(RpcError::ClearFailed)
        }),
{
    if instance_clear_ok {
        Ok(())
    } else {
        Err(RpcError::ClearFailed)
    }
}

/// Law: close drains the slot before anything is shut down, so after a close
/// every lookup fails with `NotInitialized`; an update or clear that begins
/// with this lookup fails the same way and never reaches the closed
/// instance.
pub proof fn lemma_after_close_not_initialized(h: Option<u64>)
    ensures
        spec_current(spec_drain(h).0) == Err::<u64, RpcError>(RpcError::NotInitialized),
{
}

/// Law: close is idempotent — whatever the first close drained and however
/// shutting that instance down went, a second close in a row drains nothing
/// and succeeds as a no-op.
pub proof fn lemma_close_idempotent(h: Option<u64>, second_instance_ok: bool)
    ensures
        spec_drain(spec_drain(h).0).1 is None,
        spec_close_result(spec_drain(spec_drain(h).0).1, second_instance_ok) == Ok::<
            (),
            RpcError,
        >(()),
{
}

} // verus!
