//! The `org` instruction: establishes the base instruction pointer at
//! program start.  `org 100h` sets `cs` to zero and `ip` to 0x100; no flag
//! and no general register changes.

use vstd::prelude::*;

verus! {

use crate::cpucontext::{CpuContext, Reg16, reg16_from_name, set16_spec};
use crate::errors::EmuError;
use crate::memory::Memory;
use crate::parser::{Operand, imm_to_num, imm_to_num_spec};

/// The state transition of `org`: `cs` becomes zero and `ip` becomes the
/// immediate; every other register and every flag bit is kept.
pub open spec fn org_spec(c: CpuContext, first: Operand) -> Result<CpuContext, EmuError> {
    match first {
        Operand::Imm(t) => match imm_to_num_spec(t@) {
            Some(v) => Ok(CpuContext { cs: 0, ip: v, ..c }),
            None => Err(EmuError::InvalidImmediateFormat),
        },
        _ => Err(EmuError::UnsupportedOperandForm),
    }
}

/// Executes one `org` instruction.  The memory is never touched; on an
/// error nothing changes.
pub fn handler_org(cpu: &mut CpuContext, memory: &mut Memory, first: &Operand) -> (r: Result<
    (),
    EmuError,
>)
    requires
        old(memory).wf(),
    ensures
        final(memory).wf(),
        final(memory)@ == old(memory)@,
        org_spec(*old(cpu), *first) matches Ok(next) ==> r is Ok && *final(cpu) == next,
        org_spec(*old(cpu), *first) matches Err(e) ==> r == Err::<(), EmuError>(e) && *final(cpu)
            == *old(cpu),
{
    match first {
        Operand::Imm(t) => {
            let ip = match imm_to_num(t.as_str()) {
                Ok(n) => n,
                Err(e) => {
                    return Err(e);
                },
            };
            cpu.set16(Reg16::Cs, 0);
            cpu.set16(Reg16::Ip, ip);
            Ok(())
        },
        _ => Err(EmuError::UnsupportedOperandForm),
    }
}

} // verus!
