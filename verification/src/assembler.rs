//! The two canonical 8086 encoding tables: register name to 3-bit register
//! code, and base/index register pairing to 3-bit r/m code.
//!
//! These tables are the wire format: the operand resolver and the
//! machine-code encoder both read them, so they exist exactly once.

use vstd::prelude::*;

verus! {

use crate::cpucontext::{Reg16, Reg8, reg16_of_name, reg8_of_name, reg16_from_name, reg8_from_name};
use crate::errors::EmuError;

/// The 3-bit hardware code of a general 16-bit register; segment registers,
/// `ip` and `flags` have none.
pub open spec fn gen_reg16_code(r: Reg16) -> Option<u8> {
    match r {
        Reg16::Ax => Some(0u8),
        Reg16::Cx => Some(1u8),
        Reg16::Dx => Some(2u8),
        Reg16::Bx => Some(3u8),
        Reg16::Sp => Some(4u8),
        Reg16::Bp => Some(5u8),
        Reg16::Si => Some(6u8),
        Reg16::Di => Some(7u8),
        _ => None,
    }
}

/// The 3-bit hardware code of an 8-bit register half.
pub open spec fn reg8_code(r: Reg8) -> u8 {
    match r {
        Reg8::Al => 0u8,
        Reg8::Cl => 1u8,
        Reg8::Dl => 2u8,
        Reg8::Bl => 3u8,
        Reg8::Ah => 4u8,
        Reg8::Ch => 5u8,
        Reg8::Dh => 6u8,
        Reg8::Bh => 7u8,
    }
}

/// The 3-bit code a register name denotes, through either width's table.
pub open spec fn register_code_of_name(s: Seq<char>) -> Option<u8> {
    match reg16_of_name(s) {
        Some(r) => gen_reg16_code(r),
        None => match reg8_of_name(s) {
            Some(r) => Some(reg8_code(r)),
            None => None,
        },
    }
}

/// The one executable copy of the general-register code table for 16-bit
/// names; everything that needs a register code goes through it.
pub fn code_of_reg16(r: Reg16) -> (c: Option<u8>)
    ensures
        c == gen_reg16_code(r),
{
    match r {
        Reg16::Ax => Some(0),
        Reg16::Cx => Some(1),
        Reg16::Dx => Some(2),
        Reg16::Bx => Some(3),
        Reg16::Sp => Some(4),
        Reg16::Bp => Some(5),
        Reg16::Si => Some(6),
        Reg16::Di => Some(7),
        _ => None,
    }
}

/// The one executable copy of the register code table for 8-bit halves.
pub fn code_of_reg8(r: Reg8) -> (c: u8)
    ensures
        c == reg8_code(r),
{
    match r {
        Reg8::Al => 0,
        Reg8::Cl => 1,
        Reg8::Dl => 2,
        Reg8::Bl => 3,
        Reg8::Ah => 4,
        Reg8::Ch => 5,
        Reg8::Dh => 6,
        Reg8::Bh => 7,
    }
}

/// Looks a register name up in the 8086 general-register table:
/// ax/al = 0, cx/cl = 1, dx/dl = 2, bx/bl = 3, sp/ah = 4, bp/ch = 5,
/// si/dh = 6, di/bh = 7.  Names outside the table are reported.
pub fn register_table(reg: &str) -> (r: Result<u8, EmuError>)
    ensures
        register_code_of_name(reg@) matches Some(c) ==> r == Ok::<u8, EmuError>(c),
        register_code_of_name(reg@) is None ==> r == Err::<u8, EmuError>(EmuError::UnknownRegister),
{
    match reg16_from_name(reg) {
        Some(r16) => match code_of_reg16(r16) {
            Some(c) => Ok(c),
            None => Err(EmuError::UnknownRegister),
        },
        None => match reg8_from_name(reg) {
            Some(r8) => Ok(code_of_reg8(r8)),
            None => Err(EmuError::UnknownRegister),
        },
    }
}

/// The 3-bit r/m code of a legal base/index pairing, per the fixed 8086
/// table; any other pairing has none.
pub open spec fn rm_code(base: Option<Reg16>, index: Option<Reg16>) -> Option<u8> {
    match (base, index) {
        (Some(Reg16::Bx), Some(Reg16::Si)) => Some(0u8),
        (Some(Reg16::Bx), Some(Reg16::Di)) => Some(1u8),
        (Some(Reg16::Bp), Some(Reg16::Si)) => Some(2u8),
        (Some(Reg16::Bp), Some(Reg16::Di)) => Some(3u8),
        (None, Some(Reg16::Si)) => Some(4u8),
        (None, Some(Reg16::Di)) => Some(5u8),
        (Some(Reg16::Bp), None) => Some(6u8),
        (Some(Reg16::Bx), None) => Some(7u8),
        _ => None,
    }
}

/// The view of an optional string slice.
pub open spec fn opt_str_view(o: Option<&str>) -> Option<Seq<char>> {
    match o {
        Some(s) => Some(s@),
        None => None,
    }
}

/// What `base_index_table` returns for a pair of optional register names.
pub open spec fn base_index_table_spec(b: Option<Seq<char>>, i: Option<Seq<char>>) -> Result<
    u8,
    EmuError,
> {
    let br = match b {
        Some(bs) => reg16_of_name(bs),
        None => None,
    };
    let ir = match i {
        Some(is) => reg16_of_name(is),
        None => None,
    };
    if (b is Some && br is None) || (i is Some && ir is None) {
        Err(EmuError::UnsupportedAddressingForm)
    } else {
        match rm_code(br, ir) {
            Some(c) => Ok(c),
            None => Err(EmuError::UnsupportedAddressingForm),
        }
    }
}

/// Looks a base/index register pairing up in the fixed 8086 table:
/// {bx,si} = 0, {bx,di} = 1, {bp,si} = 2, {bp,di} = 3, {si} = 4, {di} = 5,
/// {bp} = 6, {bx} = 7.  Any other pairing is an unsupported addressing form.
pub fn base_index_table(base: Option<&str>, index: Option<&str>) -> (r: Result<u8, EmuError>)
    ensures
        r == base_index_table_spec(opt_str_view(base), opt_str_view(index)),
{
    let br = match base {
        Some(bs) => match reg16_from_name(bs) {
            Some(b16) => Some(b16),
            None => {
                return Err(EmuError::UnsupportedAddressingForm);
            },
        },
        None => None,
    };
    let ir = match index {
        Some(is) => match reg16_from_name(is) {
            Some(i16) => Some(i16),
            None => {
                return Err(EmuError::UnsupportedAddressingForm);
            },
        },
        None => None,
    };
    match (br, ir) {
        (Some(Reg16::Bx), Some(Reg16::Si)) => Ok(0),
        (Some(Reg16::Bx), Some(Reg16::Di)) => Ok(1),
        (Some(Reg16::Bp), Some(Reg16::Si)) => Ok(2),
        (Some(Reg16::Bp), Some(Reg16::Di)) => Ok(3),
        (None, Some(Reg16::Si)) => Ok(4),
        (None, Some(Reg16::Di)) => Ok(5),
        (Some(Reg16::Bp), None) => Ok(6),
        (Some(Reg16::Bx), None) => Ok(7),
        _ => Err(EmuError::UnsupportedAddressingForm),
    }
}

/// The canonical lower-case name of a 16-bit register.
pub open spec fn name16_of(r: Reg16) -> Seq<char> {
    match r {
        Reg16::Ax => seq!['a', 'x'],
        Reg16::Bx => seq!['b', 'x'],
        Reg16::Cx => seq!['c', 'x'],
        Reg16::Dx => seq!['d', 'x'],
        Reg16::Si => seq!['s', 'i'],
        Reg16::Di => seq!['d', 'i'],
        Reg16::Bp => seq!['b', 'p'],
        Reg16::Sp => seq!['s', 'p'],
        Reg16::Cs => seq!['c', 's'],
        Reg16::Ds => seq!['d', 's'],
        Reg16::Es => seq!['e', 's'],
        Reg16::Ss => seq!['s', 's'],
        Reg16::Ip => seq!['i', 'p'],
        Reg16::Flags => seq!['f', 'l', 'a', 'g', 's'],
    }
}

/// A register's canonical name resolves back to that register.
pub proof fn lemma_name16_round_trip(r: Reg16)
    ensures
        reg16_of_name(name16_of(r)) == Some(r),
{
}

/// Law: the encoder and the resolver agree on one register-code table.
/// For every general 16-bit register, looking its name up through the
/// public `register_table` yields exactly the 3-bit code the encoder puts
/// in the reg and r/m fields of a ModRM byte.
pub proof fn lemma_register_table_agreement(r: Reg16)
    requires
        gen_reg16_code(r) is Some,
    ensures
        register_code_of_name(name16_of(r)) == gen_reg16_code(r),
{
    lemma_name16_round_trip(r);
}

} // verus!
