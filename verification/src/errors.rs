//! Error taxonomy of the presence coordinator, and the terse message each
//! error is reported with at the command boundary.

use vstd::prelude::*;

verus! {

/// Failures of the connection coordinator and of the update paths.
#[derive(Clone, Copy, PartialEq, Eq, Structural, Debug)]
pub enum RpcError {
    /// An operation was requested before a successful initialization.
    NotInitialized,
    /// Connection establishment exhausted its retry budget.
    EstablishmentFailed { attempts: u32 },
    /// The external client rejected an activity payload.
    ApplyFailed,
    /// The external client failed to clear its displayed activity.
    ClearFailed,
    /// The external client failed to shut its connection down.
    CloseFailed,
    /// A holder of the connection's exclusive-access primitive terminated
    /// abnormally while holding it.
    LockCorrupted,
    /// The bundled configuration could not be parsed.
    ConfigParseFailed,
}

/// Failures of the diagnostic endpoint enumeration.
#[derive(Clone, Copy, PartialEq, Eq, Structural, Debug)]
pub enum DiscoveryError {
    /// The diagnostic call is only meaningful on the target platform.
    UnsupportedPlatform,
    /// Both the primary and the fallback enumeration strategies failed.
    EnumerationFailed,
}

impl RpcError {
    /// The terse, caller-visible text of this error.
    pub open spec fn spec_message(self) -> Seq<char> {
        match self {
            RpcError::NotInitialized => "RPC client not initialized. Call init_rpc first."@,
            RpcError::EstablishmentFailed { .. } => "Failed to init the presence IPC connection."@,
            RpcError::ApplyFailed => "Failed to set activity"@,
            RpcError::ClearFailed => "Failed to clear activity"@,
            RpcError::CloseFailed => "Failed to close the presence IPC client"@,
            RpcError::LockCorrupted => "Mutex poisoned"@,
            RpcError::ConfigParseFailed => "Failed to parse the allowed process list"@,
        }
    }

    pub fn message(&self) -> (m: String)
        ensures
            m@ == self.spec_message(),
    {
        match self {
            RpcError::NotInitialized => String::from_str(
                "RPC client not initialized. Call init_rpc first.",
            ),
            RpcError::EstablishmentFailed { .. } => String::from_str(
                "Failed to init the presence IPC connection.",
            ),
            RpcError::ApplyFailed => String::from_str("Failed to set activity"),
            RpcError::ClearFailed => String::from_str("Failed to clear activity"),
            RpcError::CloseFailed => String::from_str("Failed to close the presence IPC client"),
            RpcError::LockCorrupted => String::from_str("Mutex poisoned"),
            RpcError::ConfigParseFailed => String::from_str(
                "Failed to parse the allowed process list",
            ),
        }
    }
}

impl DiscoveryError {
    /// The terse, caller-visible text of this error.
    pub open spec fn spec_message(self) -> Seq<char> {
        match self {
            DiscoveryError::UnsupportedPlatform => "debug_ipc_pipes: supported on Windows only"@,
            DiscoveryError::EnumerationFailed => "Failed to enumerate pipes"@,
        }
    }

    pub fn message(&self) -> (m: String)
        ensures
            m@ == self.spec_message(),
    {
        match self {
            DiscoveryError::UnsupportedPlatform => String::from_str(
                "debug_ipc_pipes: supported on Windows only",
            ),
            DiscoveryError::EnumerationFailed => String::from_str("Failed to enumerate pipes"),
        }
    }
}

} // verus!
