//! The hint advisor: a suggestion of the next legal action.

use crate::context::{ExceptionLevel, Mode};
use vstd::prelude::*;

verus! {

/// The suggestion for a session in `mode` at `level`.
pub open spec fn hint_text(mode: Mode, level: ExceptionLevel) -> Seq<char> {
    match level {
        ExceptionLevel::EL3 => "Hint: Type 'init_trustzone' to initialize TrustZone and transition to EL2"@,
        ExceptionLevel::EL2 => "Hint: Type 'setup_virtualization' to set up virtualization and transition to EL1"@,
        ExceptionLevel::EL1 => "Hint: Type 'init_kernel' to initialize the kernel and transition to EL0"@,
        ExceptionLevel::EL0 => match mode {
            Mode::Secure => "Hint: Perform secure operations or type 'switch_mode' to change to Non-Secure mode"@,
            Mode::NonSecure => "Hint: You can now execute Non-Secure instructions like 'ADD', 'SUB', etc."@,
        },
    }
}

/// Suggests the next legal action: the command that leaves the current level,
/// or at `EL0` what the current mode allows.
pub fn hint(mode: Mode, level: ExceptionLevel) -> (r: String)
    ensures
        r@ == hint_text(mode, level),
{
    match level {
        ExceptionLevel::EL3 => String::from_str(
            "Hint: Type 'init_trustzone' to initialize TrustZone and transition to EL2",
        ),
        ExceptionLevel::EL2 => String::from_str(
            "Hint: Type 'setup_virtualization' to set up virtualization and transition to EL1",
        ),
        ExceptionLevel::EL1 => String::from_str(
            "Hint: Type 'init_kernel' to initialize the kernel and transition to EL0",
        ),
        ExceptionLevel::EL0 => match mode {
            Mode::Secure => String::from_str(
                "Hint: Perform secure operations or type 'switch_mode' to change to Non-Secure mode",
            ),
            Mode::NonSecure => String::from_str(
                "Hint: You can now execute Non-Secure instructions like 'ADD', 'SUB', etc.",
            ),
        },
    }
}

} // verus!
