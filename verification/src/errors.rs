//! Failure taxonomy of the bootstrap.
//!
//! Every stage of construction reports its own class of failure, so the
//! caller can tell a transport allocation problem from a spawn problem or
//! from the intermediate process refusing the hand-off. Interrupted waits
//! are not part of the taxonomy: they are retried internally and never
//! surface.

use vstd::prelude::*;

verus! {

/// A failure of the bootstrap, carrying the stage that failed and the
/// underlying OS error or exit code where one exists.
#[derive(Clone, Copy, Debug, PartialEq, Eq, Structural)]
pub enum CrashHelperError {
    /// The OS transport backing the channel could not be allocated; carries
    /// the OS error number.
    ChannelCreation(i32),
    /// A channel end could not be encoded into a token. Unreachable under
    /// correct internal usage; kept so the taxonomy is closed.
    Serialization,
    /// The intermediate process could not be created; carries the OS error
    /// number.
    Spawn(i32),
    /// The OS failed while the launcher was observing the intermediate
    /// process, as distinct from a clean nonzero exit; carries the OS error
    /// number, or 0 where the OS reported an impossible wait status.
    Wait(i32),
    /// The intermediate process terminated without a clean zero exit;
    /// carries its exit code, or 128 plus the signal number when it was
    /// killed by a signal.
    LaunchFailed(i32),
}

impl CrashHelperError {
    /// The exit code reported by the intermediate process, where this
    /// failure was a refused hand-off.
    pub fn launch_exit_code(&self) -> (r: Option<i32>)
        ensures
            match *self {
                CrashHelperError::LaunchFailed(code) => r == Some(code),
                _ => r is None,
            },
    {
        match *self {
            CrashHelperError::LaunchFailed(code) => Some(code),
            _ => None,
        }
    }
}

} // verus!
