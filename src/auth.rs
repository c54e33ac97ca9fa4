use vstd::prelude::*;

use crate::error::PreflightError;

verus! {

/// The authorization policy a caller selects for an invocation.
#[derive(Clone, Copy, Debug, PartialEq, Eq, Structural)]
pub enum AuthMode {
    Enforce,
    Record,
    RecordAllowNonroot,
}

pub open spec fn auth_mode_of(x: u32) -> Option<AuthMode> {
    if x == 0 {
        Some(AuthMode::Enforce)
    } else if x == 1 {
        Some(AuthMode::Record)
    } else if x == 2 {
        Some(AuthMode::RecordAllowNonroot)
    } else {
        None
    }
}

impl AuthMode {
    /// Parses the numeric selector used across the call boundary; any value
    /// but the three known ones is a caller-input error.
    pub fn from_u32(x: u32) -> (r: Result<AuthMode, PreflightError>)
        ensures
            match auth_mode_of(x) {
                Some(m) => r == Ok::<AuthMode, PreflightError>(m),
                None => r == Err::<AuthMode, PreflightError>(PreflightError::InvalidAuthMode(x)),
            },
    {
        match x {
            0 => Ok(AuthMode::Enforce),
            1 => Ok(AuthMode::Record),
            2 => Ok(AuthMode::RecordAllowNonroot),
            _ => Err(PreflightError::InvalidAuthMode(x)),
        }
    }
}

/// The engine's authorization policy: enforce exactly the given encoded
/// entries, or record authorization, requiring a root-level signer or not.
#[derive(Debug)]
pub enum RecordingInvocationAuthMode {
    Enforcing(Vec<Vec<u8>>),
    Recording(bool),
}

/// Maps the caller's choice to the engine's policy. Enforcement takes the
/// supplied list even when it is empty; the recording modes drop it unread.
pub fn resolve_auth_mode(auth_mode: AuthMode, auth_entries: Vec<Vec<u8>>) -> (r:
    RecordingInvocationAuthMode)
    ensures
        match auth_mode {
            AuthMode::Enforce => r matches RecordingInvocationAuthMode::Enforcing(v) && v@
                == auth_entries@,
            AuthMode::Record => r == RecordingInvocationAuthMode::Recording(true),
            AuthMode::RecordAllowNonroot => r == RecordingInvocationAuthMode::Recording(false),
        },
{
    match auth_mode {
        AuthMode::Enforce => RecordingInvocationAuthMode::Enforcing(auth_entries),
        AuthMode::Record => RecordingInvocationAuthMode::Recording(true),
        AuthMode::RecordAllowNonroot => RecordingInvocationAuthMode::Recording(false),
    }
}

} // verus!
