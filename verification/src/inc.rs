//! The `inc` instruction family: increment a register or a memory location
//! of either width, and its machine-code encoding.
//!
//! The result is the operand plus one, truncated to its width; carry and
//! overflow follow the same rules as `add` with an implicit second operand
//! of one.

use vstd::prelude::*;

verus! {

use crate::add::{_do_add8, add16_flags, add8_flags, do_add16, hi_byte, lo_byte, sum16, sum8};
use crate::assembler::{base_index_table, base_index_table_spec, code_of_reg16, code_of_reg8,
    gen_reg16_code, reg8_code};
use crate::cpucontext::{CpuContext, get16_spec, get8_spec, reg16_of_name, reg8_of_name,
    reg16_from_name, reg8_from_name, set16_spec, set8_spec, with_flags};
use crate::errors::EmuError;
use crate::memory::{Memory, read16_spec, read8_spec, write16_spec, write8_spec};
use crate::parser::{Operand, imm_to_num, imm_to_num_spec, mem_to_num_spec, mem_to_num};
use crate::resolver::{ea_spec, opt_string_view, resolve_ea};

/// The bytes the encoder emits for each supported `inc` form: the one-byte
/// short form `40 | reg` for a 16-bit register; `FE /0` with a
/// register-direct ModRM for an 8-bit register; `FF /0` or `FE /0` with the
/// direct-addressing ModRM (mod = 00, r/m = 110) plus a little-endian
/// 16-bit displacement for direct memory; and the same opcodes with
/// mod = 10 and the base/index r/m code plus a 16-bit displacement for
/// indirect memory.
pub open spec fn assemble_inc_spec(op: Operand) -> Result<Seq<u8>, EmuError> {
    match op {
        Operand::Register16(n) => match reg16_of_name(n@) {
            Some(r) => match gen_reg16_code(r) {
                Some(c) => Ok(seq![(0x40 | c) as u8]),
                None => Err(EmuError::UnknownRegister),
            },
            None => Err(EmuError::UnknownRegister),
        },
        Operand::Register8(n) => match reg8_of_name(n@) {
            Some(r) => Ok(seq![0xfeu8, (0xc0 | reg8_code(r)) as u8]),
            None => Err(EmuError::UnknownRegister),
        },
        Operand::Mem16(s) => match mem_to_num_spec(s@) {
            Some(a) => Ok(seq![0xffu8, 0x06u8, lo_byte(a), hi_byte(a)]),
            None => Err(EmuError::InvalidImmediateFormat),
        },
        Operand::Mem8(s) => match mem_to_num_spec(s@) {
            Some(a) => Ok(seq![0xfeu8, 0x06u8, lo_byte(a), hi_byte(a)]),
            None => Err(EmuError::InvalidImmediateFormat),
        },
        Operand::Indirect16 { base, index, disp } => match base_index_table_spec(
            opt_string_view(base),
            opt_string_view(index),
        ) {
            Ok(rm) => match imm_to_num_spec(disp@) {
                Some(d) => Ok(seq![0xffu8, (0x80 | rm) as u8, lo_byte(d), hi_byte(d)]),
                None => Err(EmuError::InvalidImmediateFormat),
            },
            Err(e) => Err(e),
        },
        Operand::Indirect8 { base, index, disp } => match base_index_table_spec(
            opt_string_view(base),
            opt_string_view(index),
        ) {
            Ok(rm) => match imm_to_num_spec(disp@) {
                Some(d) => Ok(seq![0xfeu8, (0x80 | rm) as u8, lo_byte(d), hi_byte(d)]),
                None => Err(EmuError::InvalidImmediateFormat),
            },
            Err(e) => Err(e),
        },
        _ => Err(EmuError::UnsupportedOperandForm),
    }
}

/// Renders a supported `inc` instruction into the exact bytes the
/// processor would store; purely syntactic.
pub fn assemble_inc(operand: &Operand) -> (r: Result<Vec<u8>, EmuError>)
    ensures
        r matches Ok(v) ==> assemble_inc_spec(*operand) matches Ok(s) && v@ == s,
        r matches Err(e) ==> assemble_inc_spec(*operand) == Err::<Seq<u8>, EmuError>(e),
{
    match operand {
        Operand::Register16(n) => {
            let code = match reg16_from_name(n.as_str()) {
                Some(r) => match code_of_reg16(r) {
                    Some(c) => c,
                    None => {
                        return Err(EmuError::UnknownRegister);
                    },
                },
                None => {
                    return Err(EmuError::UnknownRegister);
                },
            };
            let mut v: Vec<u8> = Vec::new();
            v.push(0x40 | code);
            proof {
                assert(v@ =~= seq![(0x40 | code) as u8]);
            }
            Ok(v)
        },
        Operand::Register8(n) => {
            let code = match reg8_from_name(n.as_str()) {
                Some(r) => code_of_reg8(r),
                None => {
                    return Err(EmuError::UnknownRegister);
                },
            };
            let mut v: Vec<u8> = Vec::new();
            v.push(0xfe);
            v.push(0xc0 | code);
            proof {
                assert(v@ =~= seq![0xfeu8, (0xc0 | code) as u8]);
            }
            Ok(v)
        },
        Operand::Mem16(s) => {
            let address = match mem_to_num(s.as_str()) {
                Ok(a) => a,
                Err(e) => {
                    return Err(e);
                },
            };
            let a16 = address as u16;
            let mut v: Vec<u8> = Vec::new();
            v.push(0xff);
            v.push(0x06);
            v.push((a16 & 0xff) as u8);
            v.push(((a16 & 0xff00) >> 8) as u8);
            proof {
                assert(v@ =~= seq![0xffu8, 0x06u8, lo_byte(a16), hi_byte(a16)]);
            }
            Ok(v)
        },
        Operand::Mem8(s) => {
            let address = match mem_to_num(s.as_str()) {
                Ok(a) => a,
                Err(e) => {
                    return Err(e);
                },
            };
            let a16 = address as u16;
            let mut v: Vec<u8> = Vec::new();
            v.push(0xfe);
            v.push(0x06);
            v.push((a16 & 0xff) as u8);
            v.push(((a16 & 0xff00) >> 8) as u8);
            proof {
                assert(v@ =~= seq![0xfeu8, 0x06u8, lo_byte(a16), hi_byte(a16)]);
            }
            Ok(v)
        },
        Operand::Indirect16 { base, index, disp } => {
            let bs: Option<&str> = match base {
                Some(s) => Some(s.as_str()),
                None => None,
            };
            let is_opt: Option<&str> = match index {
                Some(s) => Some(s.as_str()),
                None => None,
            };
            let rm = match base_index_table(bs, is_opt) {
                Ok(c) => c,
                Err(e) => {
                    return Err(e);
                },
            };
            let d = match imm_to_num(disp.as_str()) {
                Ok(n) => n,
                Err(e) => {
                    return Err(e);
                },
            };
            let mut v: Vec<u8> = Vec::new();
            v.push(0xff);
            v.push(0x80 | rm);
            v.push((d & 0xff) as u8);
            v.push(((d & 0xff00) >> 8) as u8);
            proof {
                assert(v@ =~= seq![0xffu8, (0x80 | rm) as u8, lo_byte(d), hi_byte(d)]);
            }
            Ok(v)
        },
        Operand::Indirect8 { base, index, disp } => {
            let bs: Option<&str> = match base {
                Some(s) => Some(s.as_str()),
                None => None,
            };
            let is_opt: Option<&str> = match index {
                Some(s) => Some(s.as_str()),
                None => None,
            };
            let rm = match base_index_table(bs, is_opt) {
                Ok(c) => c,
                Err(e) => {
                    return Err(e);
                },
            };
            let d = match imm_to_num(disp.as_str()) {
                Ok(n) => n,
                Err(e) => {
                    return Err(e);
                },
            };
            let mut v: Vec<u8> = Vec::new();
            v.push(0xfe);
            v.push(0x80 | rm);
            v.push((d & 0xff) as u8);
            v.push(((d & 0xff00) >> 8) as u8);
            proof {
                assert(v@ =~= seq![0xfeu8, (0x80 | rm) as u8, lo_byte(d), hi_byte(d)]);
            }
            Ok(v)
        },
        _ => Err(EmuError::UnsupportedOperandForm),
    }
}

/// The state transition of each supported `inc` form: the operand location
/// takes its value plus one, truncated to the operand width; the flags word
/// takes carry and overflow computed as an addition of one; nothing else
/// changes.
pub open spec fn inc_spec(c: CpuContext, m: Seq<u8>, op: Operand) -> Result<
    (CpuContext, Seq<u8>),
    EmuError,
> {
    match op {
        Operand::Register16(n) => match reg16_of_name(n@) {
            Some(r) => {
                let v = get16_spec(c, r);
                let c1 = with_flags(c, add16_flags(c.flags, v, 1));
                Ok((set16_spec(c1, r, sum16(v, 1)), m))
            },
            None => Err(EmuError::UnknownRegister),
        },
        Operand::Register8(n) => match reg8_of_name(n@) {
            Some(r) => {
                let v = get8_spec(c, r);
                let c1 = with_flags(c, add8_flags(c.flags, v, 1));
                Ok((set8_spec(c1, r, sum8(v, 1)), m))
            },
            None => Err(EmuError::UnknownRegister),
        },
        Operand::Mem16(s) => match mem_to_num_spec(s@) {
            Some(a) => {
                let v = read16_spec(m, a as int);
                let c1 = with_flags(c, add16_flags(c.flags, v, 1));
                Ok((c1, write16_spec(m, a as int, sum16(v, 1))))
            },
            None => Err(EmuError::InvalidImmediateFormat),
        },
        Operand::Mem8(s) => match mem_to_num_spec(s@) {
            Some(a) => {
                let v = read8_spec(m, a as int);
                let c1 = with_flags(c, add8_flags(c.flags, v, 1));
                Ok((c1, write8_spec(m, a as int, sum8(v, 1))))
            },
            None => Err(EmuError::InvalidImmediateFormat),
        },
        Operand::Indirect16 { base, index, disp } => match ea_spec(
            c,
            opt_string_view(base),
            opt_string_view(index),
            disp@,
        ) {
            Ok(a) => {
                let v = read16_spec(m, a);
                let c1 = with_flags(c, add16_flags(c.flags, v, 1));
                Ok((c1, write16_spec(m, a, sum16(v, 1))))
            },
            Err(e) => Err(e),
        },
        Operand::Indirect8 { base, index, disp } => match ea_spec(
            c,
            opt_string_view(base),
            opt_string_view(index),
            disp@,
        ) {
            Ok(a) => {
                let v = read8_spec(m, a);
                let c1 = with_flags(c, add8_flags(c.flags, v, 1));
                Ok((c1, write8_spec(m, a, sum8(v, 1))))
            },
            Err(e) => Err(e),
        },
        _ => Err(EmuError::UnsupportedOperandForm),
    }
}

/// Executes one `inc` instruction on the machine state.  On an error
/// nothing changes.
pub fn handler_inc(cpu: &mut CpuContext, memory: &mut Memory, first: &Operand) -> (r: Result<
    (),
    EmuError,
>)
    requires
        old(memory).wf(),
    ensures
        final(memory).wf(),
        inc_spec(*old(cpu), old(memory)@, *first) matches Ok(next) ==> r is Ok && *final(cpu)
            == next.0 && final(memory)@ == next.1,
        inc_spec(*old(cpu), old(memory)@, *first) matches Err(e) ==> r == Err::<(), EmuError>(e)
            && *final(cpu) == *old(cpu) && final(memory)@ == old(memory)@,
{
    match first {
        Operand::Register16(n) => {
            let rr = match reg16_from_name(n.as_str()) {
                Some(r) => r,
                None => {
                    return Err(EmuError::UnknownRegister);
                },
            };
            let v = cpu.get16(rr);
            let res = do_add16(cpu, v, 1);
            cpu.set16(rr, res);
            Ok(())
        },
        Operand::Register8(n) => {
            let rr = match reg8_from_name(n.as_str()) {
                Some(r) => r,
                None => {
                    return Err(EmuError::UnknownRegister);
                },
            };
            let v = cpu.get8(rr);
            let res = _do_add8(cpu, v, 1);
            cpu.set8(rr, res);
            Ok(())
        },
        Operand::Mem16(s) => {
            let address = match mem_to_num(s.as_str()) {
                Ok(a) => a,
                Err(e) => {
                    return Err(e);
                },
            };
            let v = match memory.read16(address) {
                Ok(w) => w,
                Err(e) => {
                    return Err(e);
                },
            };
            let res = do_add16(cpu, v, 1);
            match memory.write16(address, res) {
                Ok(u) => Ok(u),
                Err(e) => Err(e),
            }
        },
        Operand::Mem8(s) => {
            let address = match mem_to_num(s.as_str()) {
                Ok(a) => a,
                Err(e) => {
                    return Err(e);
                },
            };
            let v = match memory.read8(address) {
                Ok(w) => w,
                Err(e) => {
                    return Err(e);
                },
            };
            let res = _do_add8(cpu, v, 1);
            match memory.write8(address, res) {
                Ok(u) => Ok(u),
                Err(e) => Err(e),
            }
        },
        Operand::Indirect16 { base, index, disp } => {
            let address = match resolve_ea(cpu, base, index, disp.as_str()) {
                Ok(a) => a,
                Err(e) => {
                    return Err(e);
                },
            };
            let v = match memory.read16(address) {
                Ok(w) => w,
                Err(e) => {
                    return Err(e);
                },
            };
            let res = do_add16(cpu, v, 1);
            match memory.write16(address, res) {
                Ok(u) => Ok(u),
                Err(e) => Err(e),
            }
        },
        Operand::Indirect8 { base, index, disp } => {
            let address = match resolve_ea(cpu, base, index, disp.as_str()) {
                Ok(a) => a,
                Err(e) => {
                    return Err(e);
                },
            };
            let v = match memory.read8(address) {
                Ok(w) => w,
                Err(e) => {
                    return Err(e);
                },
            };
            let res = _do_add8(cpu, v, 1);
            match memory.write8(address, res) {
                Ok(u) => Ok(u),
                Err(e) => Err(e),
            }
        },
        _ => Err(EmuError::UnsupportedOperandForm),
    }
}

} // verus!
