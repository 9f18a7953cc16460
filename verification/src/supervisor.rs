//! Bounded-retry connection establishment. One session makes up to six
//! attempts; after a failed attempt it waits a fixed 500 ms before the next,
//! and after the sixth failure it gives up with an error that carries
//! actionable guidance. The waiting and the connection attempt itself are the
//! surrounding process's work; every decision in between is made here.

use vstd::prelude::*;

use crate::errors::RpcError;

verus! {

/// The fixed bound on connection attempts per initialization.
pub const MAX_CONNECT_ATTEMPTS: u32 = 6;

/// The fixed delay between failed attempts, in milliseconds.
pub const RETRY_DELAY_MS: u64 = 500;

/// What to do after a failed connection attempt.
#[derive(Clone, Copy, PartialEq, Eq, Structural, Debug)]
pub enum InitStep {
    /// Wait this many milliseconds, then attempt again.
    RetryAfterMs(u64),
    /// The attempt budget is exhausted: report establishment failure.
    GiveUp,
}

/// One initialization run: counts the attempts already made.
pub struct InitSession {
    pub attempts: u32,
}

impl InitSession {
    /// A session that has not attempted yet.
    pub fn new() -> (s: Self)
        ensures
            s.attempts == 0,
    {
        InitSession { attempts: 0 }
    }

    /// Whether another attempt may be made.
    pub fn may_attempt(&self) -> (b: bool)
        ensures
            b == (self.attempts < MAX_CONNECT_ATTEMPTS),
    {
        self.attempts < MAX_CONNECT_ATTEMPTS
    }

    /// Records one failed attempt and decides what follows: a fixed delay
    /// and another attempt while the budget lasts, giving up on the sixth
    /// failure — never earlier, never later.
    pub fn on_failure(&mut self) -> (step: InitStep)
        requires
            old(self).attempts < MAX_CONNECT_ATTEMPTS,
        ensures
            final(self).attempts == old(self).attempts + 1,
            step == (if final(self).attempts < MAX_CONNECT_ATTEMPTS {
                InitStep::RetryAfterMs(RETRY_DELAY_MS)
            } else {
                InitStep::GiveUp
            }),
    {
        self.attempts = self.attempts + 1;
        if self.attempts < MAX_CONNECT_ATTEMPTS {
            InitStep::RetryAfterMs(RETRY_DELAY_MS)
        } else {
            InitStep::GiveUp
        }
    }
}

/// Runs the whole retry schedule against a recorded sequence of attempt
/// outcomes (`true` = that connection attempt succeeded). Returns the number
/// of attempts used on success; on failure, the establishment error after
/// exactly the full attempt budget — never fewer attempts, never more.
pub fn run_connect_schedule(outcomes: &Vec<bool>) -> (r: Result<u32, RpcError>)
    requires
        outcomes@.len() >= MAX_CONNECT_ATTEMPTS,
    ensures
        match r {
            Ok(n) => {
                &&& 1 <= n <= MAX_CONNECT_ATTEMPTS
                &&& outcomes@[n as int - 1]
                &&& forall|j: int| 0 <= j < n as int - 1 ==> !outcomes@[j]
            },
            Err(e) => {
                &&& e == (RpcError::EstablishmentFailed { attempts: MAX_CONNECT_ATTEMPTS })
                &&& forall|j: int| 0 <= j < MAX_CONNECT_ATTEMPTS ==> !outcomes@[j]
            },
        },
{
    let mut session = InitSession::new();
    loop
        invariant
            outcomes@.len() >= MAX_CONNECT_ATTEMPTS,
            session.attempts < MAX_CONNECT_ATTEMPTS,
            forall|j: int| 0 <= j < session.attempts ==> !outcomes@[j],
        decreases MAX_CONNECT_ATTEMPTS - session.attempts,
    {
        let idx = session.attempts as usize;
        if outcomes[idx] {
            return Ok(session.attempts + 1);
        }
        match session.on_failure() {
            InitStep::RetryAfterMs(_) => {},
            InitStep::GiveUp => {
                return Err(RpcError::EstablishmentFailed { attempts: MAX_CONNECT_ATTEMPTS });
            },
        }
    }
}

/// The caller-visible text of an exhausted establishment run: the attempt
/// bound, the last underlying failure, and remediation guidance.
pub fn establishment_failure_message(last_error: &str) -> (m: String)
    ensures
        m@ == "Failed to init Discord IPC after 6 attempts: "@ + last_error@
            + "\nCheck that:\n 1) the Discord desktop app is running\n 2) the App ID is correct\n 3) Discord has fully loaded and is not mid-update\nAlso inspect the discord-ipc pipes and the Discord logs."@,
{
    let mut m = String::from_str("Failed to init Discord IPC after 6 attempts: ");
    m.append(last_error);
    m.append(
        "\nCheck that:\n 1) the Discord desktop app is running\n 2) the App ID is correct\n 3) Discord has fully loaded and is not mid-update\nAlso inspect the discord-ipc pipes and the Discord logs.",
    );
    m
}

} // verus!
