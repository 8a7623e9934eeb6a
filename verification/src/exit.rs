//! What the launcher exits with, from how the command ended.

use vstd::prelude::*;

verus! {

/// How the command ended.
#[derive(Clone, Copy, Debug, PartialEq, Eq)]
pub enum ChildResult {
    /// It exited, with this code.
    Exited(i32),
    /// It was killed, by the signal of this number.
    Signaled(i32),
}

/// What the launcher exits with, and what it warns of.
#[derive(Clone, Copy, Debug, PartialEq, Eq)]
pub struct Translation {
    /// The launcher's exit code.
    pub code: u8,
    /// The signal that killed the command, if one did: the launcher says so
    /// before it exits.
    pub killed_by: Option<i32>,
}

impl ChildResult {
    /// The number that the launcher hands on: the command's exit code, or
    /// the number of the signal that killed it.
    pub open spec fn number(self) -> int {
        match self {
            ChildResult::Exited(code) => code as int,
            ChildResult::Signaled(signal) => signal as int,
        }
    }

    /// Whether that number is an exit code: it fits a byte.
    pub open spec fn spec_fits(self) -> bool {
        0 <= self.number() <= 255
    }

    /// Whether the launcher can hand the command's end on as its exit code.
    #[verifier::when_used_as_spec(spec_fits)]
    pub fn fits(self) -> (yes: bool)
        ensures
            yes == self.spec_fits(),
    {
        match self {
            ChildResult::Exited(code) => 0 <= code && code <= 255,
            ChildResult::Signaled(signal) => 0 <= signal && signal <= 255,
        }
    }
}

/// The launcher's exit code for a command that ended as `result` says.
///
/// The code of a command that exited is handed on unchanged. A command that
/// was killed gives the number of the signal, and the signal to warn of. A
/// number that is no exit code is never cut to fit: the caller has to rule
/// it out.
pub fn translate(result: ChildResult) -> (out: Translation)
    requires
        result.fits(),
    ensures
        out.code == result.number(),
        out.killed_by == match result {
            ChildResult::Exited(_) => None::<i32>,
            ChildResult::Signaled(signal) => Some(signal),
        },
{
    match result {
        ChildResult::Exited(code) => Translation { code: code as u8, killed_by: None },
        ChildResult::Signaled(signal) => Translation { code: signal as u8, killed_by: Some(signal) },
    }
}

} // verus!
