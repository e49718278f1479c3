//! The operand resolver: maps an operand node to a concrete value or to a
//! concrete effective address, using the canonical register and base/index
//! tables.

use vstd::prelude::*;

verus! {

use crate::assembler::{base_index_table, base_index_table_spec};
use crate::cpucontext::{CpuContext, get16_spec, get8_spec, reg16_of_name, reg8_of_name,
    reg16_from_name, reg8_from_name};
use crate::errors::EmuError;
use crate::memory::MEM_SIZE;
use crate::parser::{Operand, imm_to_num, imm_to_num_spec, mem_to_num, mem_to_num_spec};

/// The view of an optional owned register name.
pub open spec fn opt_string_view(o: Option<String>) -> Option<Seq<char>> {
    match o {
        Some(s) => Some(s@),
        None => None,
    }
}

/// The address contribution of an optional base or index register name.
pub open spec fn opt_reg_val(c: CpuContext, o: Option<Seq<char>>) -> int {
    match o {
        Some(s) => match reg16_of_name(s) {
            Some(r) => get16_spec(c, r) as int,
            None => 0,
        },
        None => 0,
    }
}

/// The effective address of an indirect operand: the displacement plus the
/// base register's value, if present, plus the index register's value, if
/// present.  The base/index pairing must be one of the fixed eight, and the
/// displacement must be a well-formed immediate.
pub open spec fn ea_spec(
    c: CpuContext,
    b: Option<Seq<char>>,
    i: Option<Seq<char>>,
    d: Seq<char>,
) -> Result<int, EmuError> {
    if base_index_table_spec(b, i) is Err {
        Err(EmuError::UnsupportedAddressingForm)
    } else {
        match imm_to_num_spec(d) {
            Some(v) => Ok(v + opt_reg_val(c, b) + opt_reg_val(c, i)),
            None => Err(EmuError::InvalidImmediateFormat),
        }
    }
}

/// Computes the effective address of an indirect operand.  The result of a
/// legal combination always lies well inside the 1 MiB address space, with
/// room for a 16-bit access.
pub fn resolve_ea(
    cpu: &CpuContext,
    base: &Option<String>,
    index: &Option<String>,
    disp: &str,
) -> (r: Result<usize, EmuError>)
    ensures
        r matches Ok(a) ==> ea_spec(*cpu, opt_string_view(*base), opt_string_view(*index), disp@)
            == Ok::<int, EmuError>(a as int) && a + 1 < MEM_SIZE,
        r matches Err(e) ==> ea_spec(*cpu, opt_string_view(*base), opt_string_view(*index), disp@)
            == Err::<int, EmuError>(e),
{
    let bs: Option<&str> = match base {
        Some(s) => Some(s.as_str()),
        None => None,
    };
    let is_opt: Option<&str> = match index {
        Some(s) => Some(s.as_str()),
        None => None,
    };
    match base_index_table(bs, is_opt) {
        Ok(_) => (),
        Err(e) => {
            return Err(e);
        },
    }
    let disp_v = match imm_to_num(disp) {
        Ok(v) => v,
        Err(e) => {
            return Err(e);
        },
    };
    let mut address: usize = disp_v as usize;
    match base {
        Some(s) => match reg16_from_name(s.as_str()) {
            Some(r) => {
                address = address + cpu.get16(r) as usize;
            },
            None => (),
        },
        None => (),
    }
    match index {
        Some(s) => match reg16_from_name(s.as_str()) {
            Some(r) => {
                address = address + cpu.get16(r) as usize;
            },
            None => (),
        },
        None => (),
    }
    Ok(address)
}

/// A resolved operand: a plain value for a read position, or an address
/// and width for a memory position.
#[derive(Clone, Copy, Debug, PartialEq, Eq, Structural)]
pub enum Resolved {
    /// A 16-bit value.
    Val16(u16),
    /// An 8-bit value.
    Val8(u8),
    /// The address of a word-width memory operand.
    Addr16(usize),
    /// The address of a byte-width memory operand.
    Addr8(usize),
}

/// What resolving each operand kind yields: a register's current value, an
/// immediate's numeric value, or a direct or computed effective address.
pub open spec fn resolve_spec(c: CpuContext, op: Operand) -> Result<Resolved, EmuError> {
    match op {
        Operand::Register16(n) => match reg16_of_name(n@) {
            Some(r) => Ok(Resolved::Val16(get16_spec(c, r))),
            None => Err(EmuError::UnknownRegister),
        },
        Operand::Register8(n) => match reg8_of_name(n@) {
            Some(r) => Ok(Resolved::Val8(get8_spec(c, r))),
            None => Err(EmuError::UnknownRegister),
        },
        Operand::Imm(t) => match imm_to_num_spec(t@) {
            Some(v) => Ok(Resolved::Val16(v)),
            None => Err(EmuError::InvalidImmediateFormat),
        },
        Operand::Mem16(s) => match mem_to_num_spec(s@) {
            Some(a) => Ok(Resolved::Addr16(a as usize)),
            None => Err(EmuError::InvalidImmediateFormat),
        },
        Operand::Mem8(s) => match mem_to_num_spec(s@) {
            Some(a) => Ok(Resolved::Addr8(a as usize)),
            None => Err(EmuError::InvalidImmediateFormat),
        },
        Operand::Indirect16 { base, index, disp } => match ea_spec(
            c,
            opt_string_view(base),
            opt_string_view(index),
            disp@,
        ) {
            Ok(a) => Ok(Resolved::Addr16(a as usize)),
            Err(e) => Err(e),
        },
        Operand::Indirect8 { base, index, disp } => match ea_spec(
            c,
            opt_string_view(base),
            opt_string_view(index),
            disp@,
        ) {
            Ok(a) => Ok(Resolved::Addr8(a as usize)),
            Err(e) => Err(e),
        },
        Operand::Label(_) => Err(EmuError::UnsupportedOperandForm),
    }
}

/// Resolves one operand node against the current register state.
pub fn resolve_operand(cpu: &CpuContext, op: &Operand) -> (r: Result<Resolved, EmuError>)
    ensures
        r == resolve_spec(*cpu, *op),
{
    match op {
        Operand::Register16(n) => match reg16_from_name(n.as_str()) {
            Some(r) => Ok(Resolved::Val16(cpu.get16(r))),
            None => Err(EmuError::UnknownRegister),
        },
        Operand::Register8(n) => match reg8_from_name(n.as_str()) {
            Some(r) => Ok(Resolved::Val8(cpu.get8(r))),
            None => Err(EmuError::UnknownRegister),
        },
        Operand::Imm(t) => match imm_to_num(t.as_str()) {
            Ok(v) => Ok(Resolved::Val16(v)),
            Err(e) => Err(e),
        },
        Operand::Mem16(s) => match mem_to_num(s.as_str()) {
            Ok(a) => Ok(Resolved::Addr16(a)),
            Err(e) => Err(e),
        },
        Operand::Mem8(s) => match mem_to_num(s.as_str()) {
            Ok(a) => Ok(Resolved::Addr8(a)),
            Err(e) => Err(e),
        },
        Operand::Indirect16 { base, index, disp } => match resolve_ea(
            cpu,
            base,
            index,
            disp.as_str(),
        ) {
            Ok(a) => Ok(Resolved::Addr16(a)),
            Err(e) => Err(e),
        },
        Operand::Indirect8 { base, index, disp } => match resolve_ea(
            cpu,
            base,
            index,
            disp.as_str(),
        ) {
            Ok(a) => Ok(Resolved::Addr8(a)),
            Err(e) => Err(e),
        },
        Operand::Label(_) => Err(EmuError::UnsupportedOperandForm),
    }
}

} // verus!
