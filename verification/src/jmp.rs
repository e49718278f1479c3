//! The `jmp` instruction: consumes one label operand and emits a
//! control-transfer intent.  It never touches registers, flags or memory;
//! resolving the label to a program line is the driver's job, through the
//! program table.

use vstd::prelude::*;

verus! {

use crate::errors::EmuError;
use crate::parser::Operand;

/// Hands back the label text the jump targets; any other operand kind is
/// an unsupported form.
pub fn handler_jmp(first: &Operand) -> (r: Result<String, EmuError>)
    ensures
        first matches Operand::Label(l) ==> r matches Ok(s) && s@ == l@,
        !(first matches Operand::Label(_)) ==> r == Err::<String, EmuError>(
            EmuError::UnsupportedOperandForm,
        ),
{
    match first {
        Operand::Label(l) => Ok(l.clone()),
        _ => Err(EmuError::UnsupportedOperandForm),
    }
}

} // verus!
