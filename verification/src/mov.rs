//! The `mov` instruction family: pure assignment, no flag effect.
//!
//! The register-to-register and immediate-to-register 16-bit forms are in
//! scope; the memory forms are a documented gap and are reported as
//! unsupported.

use vstd::prelude::*;

verus! {

use crate::cpucontext::{CpuContext, get16_spec, reg16_of_name, reg16_from_name, set16_spec};
use crate::errors::EmuError;
use crate::memory::Memory;
use crate::parser::{Operand, imm_to_num, imm_to_num_spec};

/// The state transition of each supported `mov` form: the destination
/// register takes the source value; no flag and no other register changes.
pub open spec fn mov_spec(c: CpuContext, first: Operand, second: Operand) -> Result<
    CpuContext,
    EmuError,
> {
    match (first, second) {
        (Operand::Register16(d), Operand::Register16(s)) => match (
            reg16_of_name(d@),
            reg16_of_name(s@),
        ) {
            (Some(rd), Some(rs)) => Ok(set16_spec(c, rd, get16_spec(c, rs))),
            _ => Err(EmuError::UnknownRegister),
        },
        (Operand::Register16(d), Operand::Imm(t)) => match reg16_of_name(d@) {
            Some(rd) => match imm_to_num_spec(t@) {
                Some(v) => Ok(set16_spec(c, rd, v)),
                None => Err(EmuError::InvalidImmediateFormat),
            },
            None => Err(EmuError::UnknownRegister),
        },
        _ => Err(EmuError::UnsupportedOperandForm),
    }
}

/// Executes one `mov` instruction on the machine state.  The memory is
/// never touched; on an error nothing changes.
pub fn handler_mov(
    cpu: &mut CpuContext,
    memory: &mut Memory,
    first: &Operand,
    second: &Operand,
) -> (r: Result<(), EmuError>)
    requires
        old(memory).wf(),
    ensures
        final(memory).wf(),
        final(memory)@ == old(memory)@,
        mov_spec(*old(cpu), *first, *second) matches Ok(next) ==> r is Ok && *final(cpu) == next,
        mov_spec(*old(cpu), *first, *second) matches Err(e) ==> r == Err::<(), EmuError>(e)
            && *final(cpu) == *old(cpu),
{
    match (first, second) {
        (Operand::Register16(d), Operand::Register16(s)) => {
            let rd = match reg16_from_name(d.as_str()) {
                Some(r) => r,
                None => {
                    return Err(EmuError::UnknownRegister);
                },
            };
            let rs = match reg16_from_name(s.as_str()) {
                Some(r) => r,
                None => {
                    return Err(EmuError::UnknownRegister);
                },
            };
            let v = cpu.get16(rs);
            cpu.set16(rd, v);
            Ok(())
        },
        (Operand::Register16(d), Operand::Imm(t)) => {
            let rd = match reg16_from_name(d.as_str()) {
                Some(r) => r,
                None => {
                    return Err(EmuError::UnknownRegister);
                },
            };
            let v = match imm_to_num(t.as_str()) {
                Ok(n) => n,
                Err(e) => {
                    return Err(e);
                },
            };
            cpu.set16(rd, v);
            Ok(())
        },
        _ => Err(EmuError::UnsupportedOperandForm),
    }
}

} // verus!
