//! The errors that the bridge reports to the protocol layer.

use vstd::prelude::*;

verus! {

/// Why a debugger command, or the session, failed.
#[derive(Clone, Copy, Debug, PartialEq, Eq, Structural)]
pub enum TargetError {
    /// The engine refused a register operation.
    EngineAccess,
    /// The engine refused a memory operation, in whole.
    MemoryAccess,
    /// A breakpoint was added where one of the same address and kind exists.
    DuplicateBreakpoint,
    /// A breakpoint was removed that had not been added.
    UnknownBreakpoint,
    /// The connection to the debugger failed.
    Transport,
}

impl TargetError {
    /// Whether the error ends the session. Only a failed connection does;
    /// every other error fails the one command that met it.
    pub open spec fn spec_is_fatal(self) -> bool {
        self == TargetError::Transport
    }

    /// Whether the error ends the session.
    #[verifier::when_used_as_spec(spec_is_fatal)]
    pub fn is_fatal(self) -> (fatal: bool)
        ensures
            fatal == self.spec_is_fatal(),
    {
        match self {
            TargetError::Transport => true,
            _ => false,
        }
    }

    /// The text that stands for the error in a log or a reply.
    pub fn message(self) -> (text: &'static str)
        ensures
            text@ == match self {
                TargetError::EngineAccess => "engine refused register access"@,
                TargetError::MemoryAccess => "engine refused memory access"@,
                TargetError::DuplicateBreakpoint => "breakpoint exists already"@,
                TargetError::UnknownBreakpoint => "no such breakpoint"@,
                TargetError::Transport => "debugger connection failed"@,
            },
    {
        match self {
            TargetError::EngineAccess => "engine refused register access",
            TargetError::MemoryAccess => "engine refused memory access",
            TargetError::DuplicateBreakpoint => "breakpoint exists already",
            TargetError::UnknownBreakpoint => "no such breakpoint",
            TargetError::Transport => "debugger connection failed",
        }
    }
}

} // verus!
