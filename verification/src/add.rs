//! The `add` instruction family: 16-bit addition with carry and overflow
//! flags, and its machine-code encoding.
//!
//! The result is the sum modulo 2^16.  Carry is set exactly when the true
//! sum does not fit in 16 bits.  Overflow follows the 8086 sign rule: it is
//! set exactly when both operands have the same sign bit and the result's
//! sign bit differs from theirs.

use vstd::prelude::*;

verus! {

use crate::assembler::{code_of_reg16, gen_reg16_code};
use crate::cpucontext::{CpuContext, Reg16, reg16_of_name, get16_spec, set16_spec, with_flags,
    CF_MASK, OF_MASK, reg16_from_name};
use crate::errors::EmuError;
use crate::memory::{Memory, read16_spec, write16_spec};
use crate::parser::{Operand, imm_to_num_spec, mem_to_num_spec, imm_to_num, mem_to_num};

/// The sign bit of a 16-bit value.
pub open spec fn sign16(x: u16) -> bool {
    x & 0x8000 == 0x8000
}

/// The 16-bit sum, truncated modulo 2^16.
pub open spec fn sum16(l: u16, r: u16) -> u16 {
    ((l + r) % 0x10000) as u16
}

/// Whether 16-bit addition carries out of the top bit.
pub open spec fn carry16(l: u16, r: u16) -> bool {
    l + r >= 0x10000
}

/// The 8086 overflow rule for addition: both operands share a sign bit and
/// the truncated sum's sign bit differs from it.
pub open spec fn overflow16(l: u16, r: u16) -> bool {
    sign16(l) == sign16(r) && sign16(sum16(l, r)) != sign16(l)
}

/// A flags word with one flag forced on or off.
pub open spec fn set_flag_to(f: u16, mask: u16, on: bool) -> u16 {
    if on {
        f | mask
    } else {
        f & !mask
    }
}

/// The flags word after a 16-bit addition: overflow and carry are
/// recomputed, every other bit is kept.
pub open spec fn add16_flags(f: u16, l: u16, r: u16) -> u16 {
    set_flag_to(set_flag_to(f, OF_MASK, overflow16(l, r)), CF_MASK, carry16(l, r))
}

/// The sign bit of an 8-bit value.
pub open spec fn sign8(x: u8) -> bool {
    x & 0x80 == 0x80
}

/// The 8-bit sum, truncated modulo 2^8.
pub open spec fn sum8(l: u8, r: u8) -> u8 {
    ((l + r) % 0x100) as u8
}

/// Whether 8-bit addition carries out of the top bit.
pub open spec fn carry8(l: u8, r: u8) -> bool {
    l + r >= 0x100
}

/// The 8086 overflow rule for 8-bit addition.
pub open spec fn overflow8(l: u8, r: u8) -> bool {
    sign8(l) == sign8(r) && sign8(sum8(l, r)) != sign8(l)
}

/// The flags word after an 8-bit addition.
pub open spec fn add8_flags(f: u16, l: u8, r: u8) -> u16 {
    set_flag_to(set_flag_to(f, OF_MASK, overflow8(l, r)), CF_MASK, carry8(l, r))
}

/// Adds two 16-bit values, truncating, and recomputes the overflow and
/// carry flags; no register and no other flag bit changes.
pub fn do_add16(cpu: &mut CpuContext, l: u16, r: u16) -> (res: u16)
    ensures
        res == sum16(l, r),
        *final(cpu) == with_flags(*old(cpu), add16_flags(old(cpu).flags, l, r)),
{
    // work around the overflow checker: add in 32 bits, then truncate
    let l32: u32 = l as u32;
    let r32: u32 = r as u32 + l32;
    let r_added: u16 = (r32 & 0xffff) as u16;
    proof {
        assert(r_added == ((l + r) % 0x10000) as u16 && ((r32 & 0x10000) != 0) == (l + r >= 0x10000)
            && (l & 0x8000 == 0 || l & 0x8000 == 0x8000) && (r & 0x8000 == 0 || r & 0x8000
            == 0x8000) && (r_added & 0x8000 == 0 || r_added & 0x8000 == 0x8000)) by (bit_vector)
            requires
                r32 == (l as u32) + (r as u32),
                r_added == (r32 & 0xffff) as u16,
        ;
    }
    // the sign rule: plus + plus yielding minus, or minus + minus yielding plus
    if (l & 0x8000) == 0 && (r & 0x8000) == 0 && (r_added & 0x8000) == 0x8000 {
        cpu.set_OF();
    } else if (l & 0x8000) == 0x8000 && (r & 0x8000) == 0x8000 && (r_added & 0x8000) == 0 {
        cpu.set_OF();
    } else {
        cpu.reset_OF();
    }
    // carry out of the most significant bit
    if (r32 & 0x10000) != 0 {
        cpu.set_CF();
    } else {
        cpu.reset_CF();
    }
    r_added
}

/// Adds two 8-bit values, truncating, and recomputes the overflow and
/// carry flags; no register and no other flag bit changes.
pub fn _do_add8(cpu: &mut CpuContext, l: u8, r: u8) -> (res: u8)
    ensures
        res == sum8(l, r),
        *final(cpu) == with_flags(*old(cpu), add8_flags(old(cpu).flags, l, r)),
{
    let l32: u32 = l as u32;
    let r32: u32 = r as u32 + l32;
    let r_added: u8 = (r32 & 0xff) as u8;
    proof {
        assert(r_added == ((l + r) % 0x100) as u8 && ((r32 & 0x100) != 0) == (l + r >= 0x100) && (l
            & 0x80 == 0 || l & 0x80 == 0x80) && (r & 0x80 == 0 || r & 0x80 == 0x80) && (r_added
            & 0x80 == 0 || r_added & 0x80 == 0x80)) by (bit_vector)
            requires
                r32 == (l as u32) + (r as u32),
                r_added == (r32 & 0xff) as u8,
        ;
    }
    if (l & 0x80) == 0 && (r & 0x80) == 0 && (r_added & 0x80) == 0x80 {
        cpu.set_OF();
    } else if (l & 0x80) == 0x80 && (r & 0x80) == 0x80 && (r_added & 0x80) == 0 {
        cpu.set_OF();
    } else {
        cpu.reset_OF();
    }
    if (r32 & 0x100) != 0 {
        cpu.set_CF();
    } else {
        cpu.reset_CF();
    }
    r_added
}

/// The low byte of a 16-bit value.
pub open spec fn lo_byte(v: u16) -> u8 {
    (v & 0xff) as u8
}

/// The high byte of a 16-bit value.
pub open spec fn hi_byte(v: u16) -> u8 {
    ((v & 0xff00) >> 8) as u8
}

/// The bytes the encoder emits for each supported `add` form:
/// the short accumulator form `05 imm16` for `add ax, imm`; `03 /r` with a
/// register-direct ModRM for register-register; `81 /0` with a
/// register-direct ModRM for register-immediate; `03 /r` and `01 /r` with
/// the direct-addressing ModRM (mod = 00, r/m = 110) plus a 16-bit
/// displacement for the two register/memory directions; and `81 /0` with
/// the same direct ModRM for memory-immediate.  Displacements and
/// immediates are little-endian.
pub open spec fn assemble_add_spec(first: Operand, second: Operand) -> Result<Seq<u8>, EmuError> {
    match (first, second) {
        (Operand::Register16(d), Operand::Register16(s)) => match (
            reg16_of_name(d@),
            reg16_of_name(s@),
        ) {
            (Some(rd), Some(rs)) => match (gen_reg16_code(rd), gen_reg16_code(rs)) {
                (Some(dc), Some(sc)) => Ok(seq![0x03u8, (0xc0 | (dc << 3) | sc) as u8]),
                _ => Err(EmuError::UnknownRegister),
            },
            _ => Err(EmuError::UnknownRegister),
        },
        (Operand::Register16(d), Operand::Imm(t)) => match reg16_of_name(d@) {
            Some(rd) => if rd == Reg16::Ax {
                match imm_to_num_spec(t@) {
                    Some(v) => Ok(seq![0x05u8, lo_byte(v), hi_byte(v)]),
                    None => Err(EmuError::InvalidImmediateFormat),
                }
            } else {
                match gen_reg16_code(rd) {
                    Some(dc) => match imm_to_num_spec(t@) {
                        Some(v) => Ok(seq![0x81u8, (0xc0 | dc) as u8, lo_byte(v), hi_byte(v)]),
                        None => Err(EmuError::InvalidImmediateFormat),
                    },
                    None => Err(EmuError::UnknownRegister),
                }
            },
            None => Err(EmuError::UnknownRegister),
        },
        (Operand::Register16(d), Operand::Mem16(s)) => match reg16_of_name(d@) {
            Some(rd) => match gen_reg16_code(rd) {
                Some(dc) => match mem_to_num_spec(s@) {
                    Some(a) => Ok(seq![0x03u8, ((dc << 3) | 0x06) as u8, lo_byte(a), hi_byte(a)]),
                    None => Err(EmuError::InvalidImmediateFormat),
                },
                None => Err(EmuError::UnknownRegister),
            },
            None => Err(EmuError::UnknownRegister),
        },
        (Operand::Mem16(s), Operand::Register16(r2)) => match mem_to_num_spec(s@) {
            Some(a) => match reg16_of_name(r2@) {
                Some(rr) => match gen_reg16_code(rr) {
                    Some(rc) => Ok(seq![0x01u8, ((rc << 3) | 0x06) as u8, lo_byte(a), hi_byte(a)]),
                    None => Err(EmuError::UnknownRegister),
                },
                None => Err(EmuError::UnknownRegister),
            },
            None => Err(EmuError::InvalidImmediateFormat),
        },
        (Operand::Mem16(s), Operand::Imm(t)) => match mem_to_num_spec(s@) {
            Some(a) => match imm_to_num_spec(t@) {
                Some(v) => Ok(
                    seq![0x81u8, 0x06u8, lo_byte(a), hi_byte(a), lo_byte(v), hi_byte(v)],
                ),
                None => Err(EmuError::InvalidImmediateFormat),
            },
            None => Err(EmuError::InvalidImmediateFormat),
        },
        _ => Err(EmuError::UnsupportedOperandForm),
    }
}

/// Renders a supported `add` instruction into the exact bytes the
/// processor would store.  The encoding is purely syntactic: it depends on
/// the operand nodes alone, never on machine state.
pub fn assemble_add(first: &Operand, second: &Operand) -> (r: Result<Vec<u8>, EmuError>)
    ensures
        r matches Ok(v) ==> assemble_add_spec(*first, *second) matches Ok(s) && v@ == s,
        r matches Err(e) ==> assemble_add_spec(*first, *second) == Err::<Seq<u8>, EmuError>(e),
{
    match (first, second) {
        (Operand::Register16(d), Operand::Register16(s)) => {
            let dc = match register_code16(d.as_str()) {
                Some(c) => c,
                None => {
                    return Err(EmuError::UnknownRegister);
                },
            };
            let sc = match register_code16(s.as_str()) {
                Some(c) => c,
                None => {
                    return Err(EmuError::UnknownRegister);
                },
            };
            let mut v: Vec<u8> = Vec::new();
            v.push(0x03);
            v.push(0xc0 | (dc << 3) | sc);
            proof {
                assert(v@ =~= seq![0x03u8, (0xc0 | (dc << 3) | sc) as u8]);
            }
            Ok(v)
        },
        (Operand::Register16(d), Operand::Imm(t)) => {
            let rd = match reg16_from_name(d.as_str()) {
                Some(r) => r,
                None => {
                    return Err(EmuError::UnknownRegister);
                },
            };
            if rd == Reg16::Ax {
                let imm = match imm_to_num(t.as_str()) {
                    Ok(n) => n,
                    Err(e) => {
                        return Err(e);
                    },
                };
                let mut v: Vec<u8> = Vec::new();
                v.push(0x05);
                v.push((imm & 0xff) as u8);
                v.push(((imm & 0xff00) >> 8) as u8);
                proof {
                    assert(v@ =~= seq![0x05u8, lo_byte(imm), hi_byte(imm)]);
                }
                Ok(v)
            } else {
                let dc = match register_code16(d.as_str()) {
                    Some(c) => c,
                    None => {
                        return Err(EmuError::UnknownRegister);
                    },
                };
                let imm = match imm_to_num(t.as_str()) {
                    Ok(n) => n,
                    Err(e) => {
                        return Err(e);
                    },
                };
                let mut v: Vec<u8> = Vec::new();
                v.push(0x81);
                v.push(0xc0 | dc);
                v.push((imm & 0xff) as u8);
                v.push(((imm & 0xff00) >> 8) as u8);
                proof {
                    assert(v@ =~= seq![0x81u8, (0xc0 | dc) as u8, lo_byte(imm), hi_byte(imm)]);
                }
                Ok(v)
            }
        },
        (Operand::Register16(d), Operand::Mem16(s)) => {
            let dc = match register_code16(d.as_str()) {
                Some(c) => c,
                None => {
                    return Err(EmuError::UnknownRegister);
                },
            };
            let address = match mem_to_num(s.as_str()) {
                Ok(a) => a,
                Err(e) => {
                    return Err(e);
                },
            };
            let a16 = address as u16;
            let mut v: Vec<u8> = Vec::new();
            v.push(0x03);
            v.push((dc << 3) | 0x06);
            v.push((a16 & 0xff) as u8);
            v.push(((a16 & 0xff00) >> 8) as u8);
            proof {
                assert(v@ =~= seq![0x03u8, ((dc << 3) | 0x06) as u8, lo_byte(a16), hi_byte(a16)]);
            }
            Ok(v)
        },
        (Operand::Mem16(s), Operand::Register16(r2)) => {
            let address = match mem_to_num(s.as_str()) {
                Ok(a) => a,
                Err(e) => {
                    return Err(e);
                },
            };
            let rc = match register_code16(r2.as_str()) {
                Some(c) => c,
                None => {
                    return Err(EmuError::UnknownRegister);
                },
            };
            let a16 = address as u16;
            let mut v: Vec<u8> = Vec::new();
            v.push(0x01);
            v.push((rc << 3) | 0x06);
            v.push((a16 & 0xff) as u8);
            v.push(((a16 & 0xff00) >> 8) as u8);
            proof {
                assert(v@ =~= seq![0x01u8, ((rc << 3) | 0x06) as u8, lo_byte(a16), hi_byte(a16)]);
            }
            Ok(v)
        },
        (Operand::Mem16(s), Operand::Imm(t)) => {
            let address = match mem_to_num(s.as_str()) {
                Ok(a) => a,
                Err(e) => {
                    return Err(e);
                },
            };
            let imm = match imm_to_num(t.as_str()) {
                Ok(n) => n,
                Err(e) => {
                    return Err(e);
                },
            };
            let a16 = address as u16;
            let mut v: Vec<u8> = Vec::new();
            v.push(0x81);
            v.push(0x06);
            v.push((a16 & 0xff) as u8);
            v.push(((a16 & 0xff00) >> 8) as u8);
            v.push((imm & 0xff) as u8);
            v.push(((imm & 0xff00) >> 8) as u8);
            proof {
                let expected =
                    seq![0x81u8, 0x06u8, lo_byte(a16), hi_byte(a16), lo_byte(imm), hi_byte(imm)];
                assert(v@ =~= expected);
            }
            Ok(v)
        },
        _ => Err(EmuError::UnsupportedOperandForm),
    }
}

/// The 3-bit code of a general 16-bit register name, if it has one.
fn register_code16(name: &str) -> (r: Option<u8>)
    ensures
        r == (match reg16_of_name(name@) {
            Some(rr) => gen_reg16_code(rr),
            None => None,
        }),
{
    match reg16_from_name(name) {
        Some(r) => code_of_reg16(r),
        None => None,
    }
}

/// The state transition of each supported `add` form: the destination
/// takes the truncated sum, the flags word takes the recomputed carry and
/// overflow bits, and nothing else changes.  The supported operand pairs
/// are register-register, register-immediate, register-memory in either
/// direction, and memory-immediate; every other pairing is reported.
pub open spec fn add_exec_spec(c: CpuContext, m: Seq<u8>, first: Operand, second: Operand) -> Result<
    (CpuContext, Seq<u8>),
    EmuError,
> {
    match (first, second) {
        (Operand::Register16(d), Operand::Register16(s)) => match (
            reg16_of_name(d@),
            reg16_of_name(s@),
        ) {
            (Some(rd), Some(rs)) => {
                let l = get16_spec(c, rd);
                let r = get16_spec(c, rs);
                let c1 = with_flags(c, add16_flags(c.flags, l, r));
                Ok((set16_spec(c1, rd, sum16(l, r)), m))
            },
            _ => Err(EmuError::UnknownRegister),
        },
        (Operand::Register16(d), Operand::Imm(t)) => match reg16_of_name(d@) {
            Some(rd) => match imm_to_num_spec(t@) {
                Some(v) => {
                    let l = get16_spec(c, rd);
                    let c1 = with_flags(c, add16_flags(c.flags, l, v));
                    Ok((set16_spec(c1, rd, sum16(l, v)), m))
                },
                None => Err(EmuError::InvalidImmediateFormat),
            },
            None => Err(EmuError::UnknownRegister),
        },
        (Operand::Register16(d), Operand::Mem16(s)) => match reg16_of_name(d@) {
            Some(rd) => match mem_to_num_spec(s@) {
                Some(a) => {
                    let l = read16_spec(m, a as int);
                    let r = get16_spec(c, rd);
                    let c1 = with_flags(c, add16_flags(c.flags, l, r));
                    Ok((set16_spec(c1, rd, sum16(l, r)), m))
                },
                None => Err(EmuError::InvalidImmediateFormat),
            },
            None => Err(EmuError::UnknownRegister),
        },
        (Operand::Mem16(s), Operand::Register16(r2)) => match mem_to_num_spec(s@) {
            Some(a) => match reg16_of_name(r2@) {
                Some(rr) => {
                    let l = read16_spec(m, a as int);
                    let r = get16_spec(c, rr);
                    let c1 = with_flags(c, add16_flags(c.flags, l, r));
                    Ok((c1, write16_spec(m, a as int, sum16(l, r))))
                },
                None => Err(EmuError::UnknownRegister),
            },
            None => Err(EmuError::InvalidImmediateFormat),
        },
        (Operand::Mem16(s), Operand::Imm(t)) => match mem_to_num_spec(s@) {
            Some(a) => match imm_to_num_spec(t@) {
                Some(v) => {
                    let l = read16_spec(m, a as int);
                    let c1 = with_flags(c, add16_flags(c.flags, l, v));
                    Ok((c1, write16_spec(m, a as int, sum16(l, v))))
                },
                None => Err(EmuError::InvalidImmediateFormat),
            },
            None => Err(EmuError::InvalidImmediateFormat),
        },
        _ => Err(EmuError::UnsupportedOperandForm),
    }
}

/// Executes one `add` instruction on the machine state.  On an error
/// nothing changes.
pub fn handler_add(
    cpu: &mut CpuContext,
    memory: &mut Memory,
    first: &Operand,
    second: &Operand,
) -> (r: Result<(), EmuError>)
    requires
        old(memory).wf(),
    ensures
        final(memory).wf(),
        add_exec_spec(*old(cpu), old(memory)@, *first, *second) matches Ok(next) ==> r is Ok
            && *final(cpu) == next.0 && final(memory)@ == next.1,
        add_exec_spec(*old(cpu), old(memory)@, *first, *second) matches Err(e) ==> r == Err::<
            (),
            EmuError,
        >(e) && *final(cpu) == *old(cpu) && final(memory)@ == old(memory)@,
{
    match (first, second) {
        (Operand::Register16(d), Operand::Register16(s)) => {
            let rd = match reg16_from_name(d.as_str()) {
                Some(r) => r,
                None => {
                    return Err(EmuError::UnknownRegister);
                },
            };
            let rs = match reg16_from_name(s.as_str()) {
                Some(r) => r,
                None => {
                    return Err(EmuError::UnknownRegister);
                },
            };
            let l = cpu.get16(rd);
            let rv = cpu.get16(rs);
            let v = do_add16(cpu, l, rv);
            cpu.set16(rd, v);
            Ok(())
        },
        (Operand::Register16(d), Operand::Imm(t)) => {
            let rd = match reg16_from_name(d.as_str()) {
                Some(r) => r,
                None => {
                    return Err(EmuError::UnknownRegister);
                },
            };
            let rv = match imm_to_num(t.as_str()) {
                Ok(n) => n,
                Err(e) => {
                    return Err(e);
                },
            };
            let l = cpu.get16(rd);
            let v = do_add16(cpu, l, rv);
            cpu.set16(rd, v);
            Ok(())
        },
        (Operand::Register16(d), Operand::Mem16(s)) => {
            let rd = match reg16_from_name(d.as_str()) {
                Some(r) => r,
                None => {
                    return Err(EmuError::UnknownRegister);
                },
            };
            let address = match mem_to_num(s.as_str()) {
                Ok(a) => a,
                Err(e) => {
                    return Err(e);
                },
            };
            let l = match memory.read16(address) {
                Ok(w) => w,
                Err(e) => {
                    return Err(e);
                },
            };
            let rv = cpu.get16(rd);
            let v = do_add16(cpu, l, rv);
            cpu.set16(rd, v);
            Ok(())
        },
        (Operand::Mem16(s), Operand::Register16(r2)) => {
            let address = match mem_to_num(s.as_str()) {
                Ok(a) => a,
                Err(e) => {
                    return Err(e);
                },
            };
            let rr = match reg16_from_name(r2.as_str()) {
                Some(r) => r,
                None => {
                    return Err(EmuError::UnknownRegister);
                },
            };
            let l = match memory.read16(address) {
                Ok(w) => w,
                Err(e) => {
                    return Err(e);
                },
            };
            let rv = cpu.get16(rr);
            let v = do_add16(cpu, l, rv);
            match memory.write16(address, v) {
                Ok(u) => Ok(u),
                Err(e) => Err(e),
            }
        },
        (Operand::Mem16(s), Operand::Imm(t)) => {
            let address = match mem_to_num(s.as_str()) {
                Ok(a) => a,
                Err(e) => {
                    return Err(e);
                },
            };
            let rv = match imm_to_num(t.as_str()) {
                Ok(n) => n,
                Err(e) => {
                    return Err(e);
                },
            };
            let l = match memory.read16(address) {
                Ok(w) => w,
                Err(e) => {
                    return Err(e);
                },
            };
            let v = do_add16(cpu, l, rv);
            match memory.write16(address, v) {
                Ok(u) => Ok(u),
                Err(e) => Err(e),
            }
        },
        _ => Err(EmuError::UnsupportedOperandForm),
    }
}

/// Law: adding zero is never special-cased.  For every 16-bit value the
/// truncated sum with zero is the value itself, and the carry and overflow
/// rules both come out false.
pub proof fn lemma_add16_zero_identity(d: u16)
    ensures
        sum16(d, 0) == d,
        !carry16(d, 0),
        !overflow16(d, 0),
{
}

/// Law: the flags word after a 16-bit addition decodes exactly.  Its
/// overflow bit is set iff the operands share a sign bit that the truncated
/// sum lacks, its carry bit is set iff the true sum does not fit in 16
/// bits, and every other bit is exactly what it was before.
pub proof fn lemma_add16_flag_bits(f: u16, l: u16, r: u16)
    ensures
        (add16_flags(f, l, r) & OF_MASK != 0) == overflow16(l, r),
        (add16_flags(f, l, r) & CF_MASK != 0) == carry16(l, r),
        add16_flags(f, l, r) & !(OF_MASK | CF_MASK) == f & !(OF_MASK | CF_MASK),
{
    let ov = overflow16(l, r);
    let ca = carry16(l, r);
    if ov && ca {
        assert((((f | 0x0800) | 0x0001) & 0x0800u16 != 0) && (((f | 0x0800) | 0x0001) & 0x0001u16
            != 0) && ((f | 0x0800) | 0x0001) & !(0x0800u16 | 0x0001) == f & !(0x0800u16 | 0x0001))
            by (bit_vector);
    } else if ov && !ca {
        assert((((f | 0x0800) & !0x0001) & 0x0800u16 != 0) && (((f | 0x0800) & !0x0001) & 0x0001u16
            == 0) && ((f | 0x0800) & !0x0001) & !(0x0800u16 | 0x0001) == f & !(0x0800u16 | 0x0001))
            by (bit_vector);
    } else if !ov && ca {
        assert((((f & !0x0800) | 0x0001) & 0x0800u16 == 0) && (((f & !0x0800) | 0x0001) & 0x0001u16
            != 0) && ((f & !0x0800) | 0x0001) & !(0x0800u16 | 0x0001) == f & !(0x0800u16 | 0x0001))
            by (bit_vector);
    } else {
        assert((((f & !0x0800) & !0x0001) & 0x0800u16 == 0) && (((f & !0x0800) & !0x0001)
            & 0x0001u16 == 0) && ((f & !0x0800) & !0x0001) & !(0x0800u16 | 0x0001) == f & !(
        0x0800u16 | 0x0001)) by (bit_vector);
    }
}

/// Law: the overflow rule in both its directions.  Adding two non-negative
/// 16-bit values that wrap into the sign bit, or two negative values that
/// wrap out of it, sets overflow; every other addition clears it.
pub proof fn lemma_overflow16_sign_rule(l: u16, r: u16)
    ensures
        overflow16(l, r) <==> ((!sign16(l) && !sign16(r) && sign16(sum16(l, r))) || (sign16(l)
            && sign16(r) && !sign16(sum16(l, r)))),
{
}

} // verus!
