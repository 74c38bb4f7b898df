//! Error values surfaced by every bridge operation.

use vstd::prelude::*;

verus! {

/// Why a bridge operation could not run. Errors are returned as values,
/// never raised, and the bridge never retries internally: the caller's
/// polling cadence is the retry loop.
#[derive(Clone, Copy, Debug, PartialEq, Eq, Structural)]
pub enum BridgeError {
    /// The session lock was unavailable (a previous holder panicked).
    LockFailure,
    /// The native client session was never established.
    SessionUnavailable,
    /// The native input subsystem reported startup failure.
    InitFailure,
    /// An operation that needs a successful init ran before one.
    NotInitialized,
    /// Init ran again after it had already succeeded.
    AlreadyInitialized,
}

/// The descriptive text of each error, fixed by the error kind alone.
pub open spec fn message_of(e: BridgeError) -> Seq<char> {
    match e {
        BridgeError::LockFailure => "Steam state lock poisoned"@,
        BridgeError::SessionUnavailable => "Steam not available"@,
        BridgeError::InitFailure => "SteamAPI_ISteamInput_Init returned false"@,
        BridgeError::NotInitialized => "Steam Input not initialized"@,
        BridgeError::AlreadyInitialized => "Steam Input already initialized"@,
    }
}

impl BridgeError {
    /// A human-readable description of the error.
    pub fn message(&self) -> (r: String)
        ensures
            r@ == message_of(*self),
    {
        match self {
            BridgeError::LockFailure => "Steam state lock poisoned".to_owned(),
            BridgeError::SessionUnavailable => "Steam not available".to_owned(),
            BridgeError::InitFailure => "SteamAPI_ISteamInput_Init returned false".to_owned(),
            BridgeError::NotInitialized => "Steam Input not initialized".to_owned(),
            BridgeError::AlreadyInitialized => "Steam Input already initialized".to_owned(),
        }
    }
}

} // verus!
