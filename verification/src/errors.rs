//! The error taxonomy of the manager and the exit code of each fatal case.

use vstd::prelude::*;

verus! {

/// Everything that can go wrong inside the core.
///
/// Only `NoDisplay` and `AnotherManagerPresent` may terminate the process;
/// every other value is absorbed where it is detected.
#[derive(Clone, Copy, PartialEq, Eq, Structural, Debug)]
pub enum WmError {
    /// The display server could not be reached at startup.
    NoDisplay,
    /// The single-owner handshake found an existing window manager.
    AnotherManagerPresent,
    /// A primitive call referenced a window the server has already destroyed.
    InvalidWindow,
    /// An insert into the client table would duplicate a child or a frame key.
    DuplicateClient,
    /// An auto-start command failed to launch.
    StartupHookFailure,
}

/// The process exit code for an error: zero never, and a distinct
/// non-zero code per taxonomy entry.
pub fn exit_code(e: &WmError) -> (r: i32)
    ensures
        r == spec_exit_code(*e),
        r != 0,
{
    match e {
        WmError::NoDisplay => 1,
        WmError::AnotherManagerPresent => 2,
        WmError::StartupHookFailure => 3,
        WmError::InvalidWindow => 4,
        WmError::DuplicateClient => 5,
    }
}

/// The exit code of each error, as a value: distinct per entry.
pub open spec fn spec_exit_code(e: WmError) -> i32 {
    match e {
        WmError::NoDisplay => 1,
        WmError::AnotherManagerPresent => 2,
        WmError::StartupHookFailure => 3,
        WmError::InvalidWindow => 4,
        WmError::DuplicateClient => 5,
    }
}

/// Exit codes distinguish the taxonomy entries: equal codes mean equal errors.
pub proof fn lemma_exit_codes_distinct(a: WmError, b: WmError)
    ensures
        spec_exit_code(a) == spec_exit_code(b) ==> a == b,
{
}

} // verus!
