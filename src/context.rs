//! The session's mutable state: the security mode and the exception level.

use vstd::prelude::*;

verus! {

/// The security axis. A session starts `Secure` and may move to `NonSecure`
/// once; the way back is locked for the rest of the session.
#[derive(Debug, Clone, Copy, PartialEq, Eq, Structural)]
pub enum Mode {
    Secure,
    NonSecure,
}

/// The privilege ladder, from the most privileged `EL3` down to `EL0`.
#[derive(Debug, Clone, Copy, PartialEq, Eq, Structural)]
pub enum ExceptionLevel {
    EL3,
    EL2,
    EL1,
    EL0,
}

/// How privileged a level is: `EL3` ranks 3, `EL0` ranks 0.
pub open spec fn rank(level: ExceptionLevel) -> nat {
    match level {
        ExceptionLevel::EL3 => 3,
        ExceptionLevel::EL2 => 2,
        ExceptionLevel::EL1 => 1,
        ExceptionLevel::EL0 => 0,
    }
}

/// The level one step below `level`, if there is one.
pub open spec fn next_lower(level: ExceptionLevel) -> Option<ExceptionLevel> {
    match level {
        ExceptionLevel::EL3 => Some(ExceptionLevel::EL2),
        ExceptionLevel::EL2 => Some(ExceptionLevel::EL1),
        ExceptionLevel::EL1 => Some(ExceptionLevel::EL0),
        ExceptionLevel::EL0 => None,
    }
}

/// What a mode switch reports.
#[derive(Debug, Clone, Copy, PartialEq, Eq, Structural)]
pub enum SwitchResult {
    /// The session moved from `Secure` to `NonSecure`.
    Switched,
    /// The session is already `NonSecure`; going back is refused.
    Locked,
}

/// The current mode and level of a session.
#[derive(Debug, Clone, Copy, PartialEq, Eq, Structural)]
pub struct ExecutionContext {
    pub mode: Mode,
    pub level: ExceptionLevel,
}

/// The context that a mode switch leaves behind, and what it reports.
pub open spec fn switch_spec(ctx: ExecutionContext) -> (SwitchResult, ExecutionContext) {
    match ctx.mode {
        Mode::Secure => (SwitchResult::Switched, ExecutionContext { mode: Mode::NonSecure, ..ctx }),
        Mode::NonSecure => (SwitchResult::Locked, ctx),
    }
}

impl ExecutionContext {
    /// A fresh session: `Secure` at `EL3`.
    pub fn new() -> (r: ExecutionContext)
        ensures
            r.mode == Mode::Secure,
            r.level == ExceptionLevel::EL3,
    {
        ExecutionContext { mode: Mode::Secure, level: ExceptionLevel::EL3 }
    }

    /// Leaves `Secure` for `NonSecure`; from `NonSecure` the switch is refused
    /// and nothing changes. The level is never touched.
    pub fn switch_mode(&mut self) -> (r: SwitchResult)
        ensures
            (r, *final(self)) == switch_spec(*old(self)),
    {
        match self.mode {
            Mode::Secure => {
                self.mode = Mode::NonSecure;
                SwitchResult::Switched
            },
            Mode::NonSecure => SwitchResult::Locked,
        }
    }
}

} // verus!
