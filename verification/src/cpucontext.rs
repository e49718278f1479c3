//! The register and flag file of the emulated processor.
//!
//! All general, segment and pointer registers are 16 bits wide; the four
//! accumulator/base/count/data registers are also addressable as two 8-bit
//! halves.  The status flags live in one 16-bit word whose bits are
//! individually addressable.  All mutation goes through named accessors.

use vstd::prelude::*;

verus! {

use crate::errors::EmuError;

/// Carry flag, bit 0 of the flags word.
pub const CF_MASK: u16 = 0x0001;
/// Parity flag, bit 2.
pub const PF_MASK: u16 = 0x0004;
/// Zero flag, bit 6.
pub const ZF_MASK: u16 = 0x0040;
/// Sign flag, bit 7.
pub const SF_MASK: u16 = 0x0080;
/// Interrupt-enable flag, bit 9.
pub const IF_MASK: u16 = 0x0200;
/// Direction flag, bit 10.
pub const DF_MASK: u16 = 0x0400;
/// Overflow flag, bit 11.
pub const OF_MASK: u16 = 0x0800;

/// Identifier of a 16-bit architectural register.
#[derive(Clone, Copy, Debug, PartialEq, Eq, Structural)]
pub enum Reg16 {
    Ax,
    Bx,
    Cx,
    Dx,
    Si,
    Di,
    Bp,
    Sp,
    Cs,
    Ds,
    Es,
    Ss,
    Ip,
    Flags,
}

/// Identifier of an 8-bit register half (a half of ax, bx, cx or dx).
#[derive(Clone, Copy, Debug, PartialEq, Eq, Structural)]
pub enum Reg8 {
    Al,
    Ah,
    Bl,
    Bh,
    Cl,
    Ch,
    Dl,
    Dh,
}

/// The 16-bit register, if any, that a textual name denotes.
pub open spec fn reg16_of_name(s: Seq<char>) -> Option<Reg16> {
    if s == seq!['a', 'x'] {
        Some(Reg16::Ax)
    } else if s == seq!['b', 'x'] {
        Some(Reg16::Bx)
    } else if s == seq!['c', 'x'] {
        Some(Reg16::Cx)
    } else if s == seq!['d', 'x'] {
        Some(Reg16::Dx)
    } else if s == seq!['s', 'i'] {
        Some(Reg16::Si)
    } else if s == seq!['d', 'i'] {
        Some(Reg16::Di)
    } else if s == seq!['b', 'p'] {
        Some(Reg16::Bp)
    } else if s == seq!['s', 'p'] {
        Some(Reg16::Sp)
    } else if s == seq!['c', 's'] {
        Some(Reg16::Cs)
    } else if s == seq!['d', 's'] {
        Some(Reg16::Ds)
    } else if s == seq!['e', 's'] {
        Some(Reg16::Es)
    } else if s == seq!['s', 's'] {
        Some(Reg16::Ss)
    } else if s == seq!['i', 'p'] {
        Some(Reg16::Ip)
    } else if s == seq!['f', 'l', 'a', 'g', 's'] {
        Some(Reg16::Flags)
    } else {
        None
    }
}

/// The 8-bit register half, if any, that a textual name denotes.
pub open spec fn reg8_of_name(s: Seq<char>) -> Option<Reg8> {
    if s == seq!['a', 'l'] {
        Some(Reg8::Al)
    } else if s == seq!['a', 'h'] {
        Some(Reg8::Ah)
    } else if s == seq!['b', 'l'] {
        Some(Reg8::Bl)
    } else if s == seq!['b', 'h'] {
        Some(Reg8::Bh)
    } else if s == seq!['c', 'l'] {
        Some(Reg8::Cl)
    } else if s == seq!['c', 'h'] {
        Some(Reg8::Ch)
    } else if s == seq!['d', 'l'] {
        Some(Reg8::Dl)
    } else if s == seq!['d', 'h'] {
        Some(Reg8::Dh)
    } else {
        None
    }
}

/// Resolves a textual name to a 16-bit register identifier.
pub fn reg16_from_name(s: &str) -> (r: Option<Reg16>)
    ensures
        r == reg16_of_name(s@),
{
    let n = s.unicode_len();
    if n == 2 {
        let c0 = s.get_char(0);
        let c1 = s.get_char(1);
        proof {
            assert(s@ =~= seq![c0, c1]);
        }
        match (c0, c1) {
            ('a', 'x') => Some(Reg16::Ax),
            ('b', 'x') => Some(Reg16::Bx),
            ('c', 'x') => Some(Reg16::Cx),
            ('d', 'x') => Some(Reg16::Dx),
            ('s', 'i') => Some(Reg16::Si),
            ('d', 'i') => Some(Reg16::Di),
            ('b', 'p') => Some(Reg16::Bp),
            ('s', 'p') => Some(Reg16::Sp),
            ('c', 's') => Some(Reg16::Cs),
            ('d', 's') => Some(Reg16::Ds),
            ('e', 's') => Some(Reg16::Es),
            ('s', 's') => Some(Reg16::Ss),
            ('i', 'p') => Some(Reg16::Ip),
            _ => None,
        }
    } else if n == 5 {
        let c0 = s.get_char(0);
        let c1 = s.get_char(1);
        let c2 = s.get_char(2);
        let c3 = s.get_char(3);
        let c4 = s.get_char(4);
        proof {
            assert(s@ =~= seq![c0, c1, c2, c3, c4]);
        }
        if c0 == 'f' && c1 == 'l' && c2 == 'a' && c3 == 'g' && c4 == 's' {
            Some(Reg16::Flags)
        } else {
            None
        }
    } else {
        None
    }
}

/// Resolves a textual name to an 8-bit register identifier.
pub fn reg8_from_name(s: &str) -> (r: Option<Reg8>)
    ensures
        r == reg8_of_name(s@),
{
    let n = s.unicode_len();
    if n == 2 {
        let c0 = s.get_char(0);
        let c1 = s.get_char(1);
        proof {
            assert(s@ =~= seq![c0, c1]);
        }
        match (c0, c1) {
            ('a', 'l') => Some(Reg8::Al),
            ('a', 'h') => Some(Reg8::Ah),
            ('b', 'l') => Some(Reg8::Bl),
            ('b', 'h') => Some(Reg8::Bh),
            ('c', 'l') => Some(Reg8::Cl),
            ('c', 'h') => Some(Reg8::Ch),
            ('d', 'l') => Some(Reg8::Dl),
            ('d', 'h') => Some(Reg8::Dh),
            _ => None,
        }
    } else {
        None
    }
}

/// The complete register and flag state of one emulated processor.
///
/// The fields are exposed so that contracts can speak of them; executable
/// code outside this module mutates the state only through the accessors.
#[derive(Clone, Copy, Debug, PartialEq, Eq, Structural)]
pub struct CpuContext {
    // General registers
    pub ax: u16,
    pub bx: u16,
    pub cx: u16,
    pub dx: u16,
    pub si: u16,
    pub di: u16,
    pub bp: u16,
    pub sp: u16,
    // Segment registers
    pub cs: u16,
    pub ds: u16,
    pub es: u16,
    pub ss: u16,
    // Special purpose registers
    pub ip: u16,
    pub flags: u16,
}

/// The state of a just-booted processor: everything zero except `cs`,
/// which points at the BIOS location 0xffff:0.
pub open spec fn boot_cpu() -> CpuContext {
    CpuContext {
        ax: 0,
        bx: 0,
        cx: 0,
        dx: 0,
        si: 0,
        di: 0,
        bp: 0,
        sp: 0,
        cs: 0xffff,
        ds: 0,
        es: 0,
        ss: 0,
        ip: 0,
        flags: 0,
    }
}

/// The value of a 16-bit register.
pub open spec fn get16_spec(c: CpuContext, r: Reg16) -> u16 {
    match r {
        Reg16::Ax => c.ax,
        Reg16::Bx => c.bx,
        Reg16::Cx => c.cx,
        Reg16::Dx => c.dx,
        Reg16::Si => c.si,
        Reg16::Di => c.di,
        Reg16::Bp => c.bp,
        Reg16::Sp => c.sp,
        Reg16::Cs => c.cs,
        Reg16::Ds => c.ds,
        Reg16::Es => c.es,
        Reg16::Ss => c.ss,
        Reg16::Ip => c.ip,
        Reg16::Flags => c.flags,
    }
}

/// The state after writing a 16-bit register.
pub open spec fn set16_spec(c: CpuContext, r: Reg16, v: u16) -> CpuContext {
    match r {
        Reg16::Ax => CpuContext { ax: v, ..c },
        Reg16::Bx => CpuContext { bx: v, ..c },
        Reg16::Cx => CpuContext { cx: v, ..c },
        Reg16::Dx => CpuContext { dx: v, ..c },
        Reg16::Si => CpuContext { si: v, ..c },
        Reg16::Di => CpuContext { di: v, ..c },
        Reg16::Bp => CpuContext { bp: v, ..c },
        Reg16::Sp => CpuContext { sp: v, ..c },
        Reg16::Cs => CpuContext { cs: v, ..c },
        Reg16::Ds => CpuContext { ds: v, ..c },
        Reg16::Es => CpuContext { es: v, ..c },
        Reg16::Ss => CpuContext { ss: v, ..c },
        Reg16::Ip => CpuContext { ip: v, ..c },
        Reg16::Flags => CpuContext { flags: v, ..c },
    }
}

/// The 16-bit register that holds a given 8-bit half.
pub open spec fn parent16(r: Reg8) -> Reg16 {
    match r {
        Reg8::Al | Reg8::Ah => Reg16::Ax,
        Reg8::Bl | Reg8::Bh => Reg16::Bx,
        Reg8::Cl | Reg8::Ch => Reg16::Cx,
        Reg8::Dl | Reg8::Dh => Reg16::Dx,
    }
}

/// Whether an 8-bit register is the high half of its parent.
pub open spec fn is_high_half(r: Reg8) -> bool {
    match r {
        Reg8::Ah | Reg8::Bh | Reg8::Ch | Reg8::Dh => true,
        _ => false,
    }
}

/// The other half of the same 16-bit register.
pub open spec fn sibling(r: Reg8) -> Reg8 {
    match r {
        Reg8::Al => Reg8::Ah,
        Reg8::Ah => Reg8::Al,
        Reg8::Bl => Reg8::Bh,
        Reg8::Bh => Reg8::Bl,
        Reg8::Cl => Reg8::Ch,
        Reg8::Ch => Reg8::Cl,
        Reg8::Dl => Reg8::Dh,
        Reg8::Dh => Reg8::Dl,
    }
}

/// The value of an 8-bit register half.
pub open spec fn get8_spec(c: CpuContext, r: Reg8) -> u8 {
    if is_high_half(r) {
        ((get16_spec(c, parent16(r)) & 0xff00) >> 8) as u8
    } else {
        (get16_spec(c, parent16(r)) & 0x00ff) as u8
    }
}

/// The state after writing an 8-bit register half: the written half is
/// replaced and the sibling half is composed back unchanged.
pub open spec fn set8_spec(c: CpuContext, r: Reg8, v: u8) -> CpuContext {
    let w = get16_spec(c, parent16(r));
    let w2 = if is_high_half(r) {
        (((v as u16) << 8) | (w & 0x00ff)) as u16
    } else {
        ((w & 0xff00) | (v as u16)) as u16
    };
    set16_spec(c, parent16(r), w2)
}

impl CpuContext {
    /// Creates a just-booted processor: all registers and flags cleared
    /// except `cs`, since cs:ip = 0xffff:0 is the location of the BIOS.
    pub fn boot() -> (r: Self)
        ensures
            r == boot_cpu(),
    {
        CpuContext {
            ax: 0,
            bx: 0,
            cx: 0,
            dx: 0,
            si: 0,
            di: 0,
            bp: 0,
            sp: 0,
            cs: 0xffff,
            ds: 0,
            es: 0,
            ss: 0,
            ip: 0,
            flags: 0,
        }
    }

    /// Resets every register and every flag bit to the boot state.
    pub fn reboot(&mut self)
        ensures
            *final(self) == boot_cpu(),
    {
        self.ax = 0;
        self.bx = 0;
        self.cx = 0;
        self.dx = 0;
        self.si = 0;
        self.di = 0;
        self.bp = 0;
        self.sp = 0;
        self.cs = 0xffff;
        self.ds = 0;
        self.es = 0;
        self.ss = 0;
        self.ip = 0;
        self.flags = 0;
    }

    /// Reads a 16-bit register by identifier.
    pub fn get16(&self, r: Reg16) -> (v: u16)
        ensures
            v == get16_spec(*self, r),
    {
        match r {
            Reg16::Ax => self.ax,
            Reg16::Bx => self.bx,
            Reg16::Cx => self.cx,
            Reg16::Dx => self.dx,
            Reg16::Si => self.si,
            Reg16::Di => self.di,
            Reg16::Bp => self.bp,
            Reg16::Sp => self.sp,
            Reg16::Cs => self.cs,
            Reg16::Ds => self.ds,
            Reg16::Es => self.es,
            Reg16::Ss => self.ss,
            Reg16::Ip => self.ip,
            Reg16::Flags => self.flags,
        }
    }

    /// Writes a 16-bit register by identifier.
    pub fn set16(&mut self, r: Reg16, v: u16)
        ensures
            *final(self) == set16_spec(*old(self), r, v),
    {
        match r {
            Reg16::Ax => self.ax = v,
            Reg16::Bx => self.bx = v,
            Reg16::Cx => self.cx = v,
            Reg16::Dx => self.dx = v,
            Reg16::Si => self.si = v,
            Reg16::Di => self.di = v,
            Reg16::Bp => self.bp = v,
            Reg16::Sp => self.sp = v,
            Reg16::Cs => self.cs = v,
            Reg16::Ds => self.ds = v,
            Reg16::Es => self.es = v,
            Reg16::Ss => self.ss = v,
            Reg16::Ip => self.ip = v,
            Reg16::Flags => self.flags = v,
        }
    }

    /// Reads an 8-bit register half by identifier.
    pub fn get8(&self, r: Reg8) -> (v: u8)
        ensures
            v == get8_spec(*self, r),
    {
        let high = match r {
            Reg8::Ah | Reg8::Bh | Reg8::Ch | Reg8::Dh => true,
            _ => false,
        };
        let w = self.get16(match r {
            Reg8::Al | Reg8::Ah => Reg16::Ax,
            Reg8::Bl | Reg8::Bh => Reg16::Bx,
            Reg8::Cl | Reg8::Ch => Reg16::Cx,
            Reg8::Dl | Reg8::Dh => Reg16::Dx,
        });
        if high {
            ((w & 0xff00) >> 8) as u8
        } else {
            (w & 0x00ff) as u8
        }
    }

    /// Writes an 8-bit register half, preserving the sibling half by
    /// mask-and-or composition.
    pub fn set8(&mut self, r: Reg8, v: u8)
        ensures
            *final(self) == set8_spec(*old(self), r, v),
    {
        let high = match r {
            Reg8::Ah | Reg8::Bh | Reg8::Ch | Reg8::Dh => true,
            _ => false,
        };
        let parent = match r {
            Reg8::Al | Reg8::Ah => Reg16::Ax,
            Reg8::Bl | Reg8::Bh => Reg16::Bx,
            Reg8::Cl | Reg8::Ch => Reg16::Cx,
            Reg8::Dl | Reg8::Dh => Reg16::Dx,
        };
        let w = self.get16(parent);
        let w2 = if high {
            ((v as u16) << 8) | (w & 0x00ff)
        } else {
            (w & 0xff00) | (v as u16)
        };
        self.set16(parent, w2);
    }
}

/// What `get_register` returns: the 16-bit value of a 16-bit name, the
/// zero-extended value of an 8-bit name, and an error otherwise.
pub open spec fn get_register_spec(c: CpuContext, s: Seq<char>) -> Result<u16, EmuError> {
    match reg16_of_name(s) {
        Some(r) => Ok(get16_spec(c, r)),
        None => match reg8_of_name(s) {
            Some(r) => Ok(get8_spec(c, r) as u16),
            None => Err(EmuError::UnknownRegister),
        },
    }
}

/// The state after `set_register`: a 16-bit name takes the whole value, an
/// 8-bit name takes its low byte, an unknown name changes nothing.
pub open spec fn set_register_spec(c: CpuContext, s: Seq<char>, v: u16) -> CpuContext {
    match reg16_of_name(s) {
        Some(r) => set16_spec(c, r, v),
        None => match reg8_of_name(s) {
            Some(r) => set8_spec(c, r, (v & 0xff) as u8),
            None => c,
        },
    }
}

impl CpuContext {
    /// Reads any architectural register by name; 8-bit halves are returned
    /// zero-extended.  An unknown name is reported, not a fault.
    pub fn get_register(&self, reg: &str) -> (r: Result<u16, EmuError>)
        ensures
            r == get_register_spec(*self, reg@),
    {
        match reg16_from_name(reg) {
            Some(r16) => Ok(self.get16(r16)),
            None => match reg8_from_name(reg) {
                Some(r8) => Ok(self.get8(r8) as u16),
                None => Err(EmuError::UnknownRegister),
            },
        }
    }

    /// Reads a 16-bit register by name.
    pub fn get_register16(&self, reg: &str) -> (r: Result<u16, EmuError>)
        ensures
            reg16_of_name(reg@) matches Some(rr) ==> r == Ok::<u16, EmuError>(
                get16_spec(*self, rr),
            ),
            reg16_of_name(reg@) is None ==> r == Err::<u16, EmuError>(EmuError::UnknownRegister),
    {
        match reg16_from_name(reg) {
            Some(r16) => Ok(self.get16(r16)),
            None => Err(EmuError::UnknownRegister),
        }
    }

    /// Reads an 8-bit register half by name.
    pub fn get_register8(&self, reg: &str) -> (r: Result<u8, EmuError>)
        ensures
            reg8_of_name(reg@) matches Some(rr) ==> r == Ok::<u8, EmuError>(get8_spec(*self, rr)),
            reg8_of_name(reg@) is None ==> r == Err::<u8, EmuError>(EmuError::UnknownRegister),
    {
        match reg8_from_name(reg) {
            Some(r8) => Ok(self.get8(r8)),
            None => Err(EmuError::UnknownRegister),
        }
    }

    /// Writes any architectural register by name; an 8-bit name takes the
    /// low byte of the value.
    pub fn set_register(&mut self, reg: &str, v: u16) -> (r: Result<(), EmuError>)
        ensures
            *final(self) == set_register_spec(*old(self), reg@, v),
            r is Ok <==> (reg16_of_name(reg@) is Some || reg8_of_name(reg@) is Some),
            r is Err ==> r == Err::<(), EmuError>(EmuError::UnknownRegister),
    {
        match reg16_from_name(reg) {
            Some(r16) => {
                self.set16(r16, v);
                Ok(())
            },
            None => match reg8_from_name(reg) {
                Some(r8) => {
                    self.set8(r8, (v & 0xff) as u8);
                    Ok(())
                },
                None => Err(EmuError::UnknownRegister),
            },
        }
    }

    /// Writes a 16-bit register by name.
    pub fn set_register16(&mut self, reg: &str, v: u16) -> (r: Result<(), EmuError>)
        ensures
            reg16_of_name(reg@) matches Some(rr) ==> r is Ok && *final(self) == set16_spec(
                *old(self),
                rr,
                v,
            ),
            reg16_of_name(reg@) is None ==> r == Err::<(), EmuError>(EmuError::UnknownRegister)
                && *final(self) == *old(self),
    {
        match reg16_from_name(reg) {
            Some(r16) => {
                self.set16(r16, v);
                Ok(())
            },
            None => Err(EmuError::UnknownRegister),
        }
    }

    /// Writes an 8-bit register half by name.
    pub fn set_register8(&mut self, reg: &str, v: u8) -> (r: Result<(), EmuError>)
        ensures
            reg8_of_name(reg@) matches Some(rr) ==> r is Ok && *final(self) == set8_spec(
                *old(self),
                rr,
                v,
            ),
            reg8_of_name(reg@) is None ==> r == Err::<(), EmuError>(EmuError::UnknownRegister)
                && *final(self) == *old(self),
    {
        match reg8_from_name(reg) {
            Some(r8) => {
                self.set8(r8, v);
                Ok(())
            },
            None => Err(EmuError::UnknownRegister),
        }
    }
}

/// The state with the flags word replaced and every register kept.
pub open spec fn with_flags(c: CpuContext, f: u16) -> CpuContext {
    CpuContext { flags: f, ..c }
}

impl CpuContext {
    /// Sets the carry flag.
    #[allow(non_snake_case)]
    pub fn set_CF(&mut self)
        ensures
            *final(self) == with_flags(*old(self), old(self).flags | CF_MASK),
    {
        self.flags = self.flags | CF_MASK;
    }

    /// Clears the carry flag.
    #[allow(non_snake_case)]
    pub fn reset_CF(&mut self)
        ensures
            *final(self) == with_flags(*old(self), old(self).flags & !CF_MASK),
    {
        self.flags = self.flags & !CF_MASK;
    }

    /// The carry bit of the flags word, in place.
    #[allow(non_snake_case)]
    pub fn get_CF(&self) -> (r: u16)
        ensures
            r == self.flags & CF_MASK,
    {
        self.flags & CF_MASK
    }

    /// Sets the parity flag.
    #[allow(non_snake_case)]
    pub fn set_PF(&mut self)
        ensures
            *final(self) == with_flags(*old(self), old(self).flags | PF_MASK),
    {
        self.flags = self.flags | PF_MASK;
    }

    /// Clears the parity flag.
    #[allow(non_snake_case)]
    pub fn reset_PF(&mut self)
        ensures
            *final(self) == with_flags(*old(self), old(self).flags & !PF_MASK),
    {
        self.flags = self.flags & !PF_MASK;
    }

    /// The parity bit of the flags word, in place.
    #[allow(non_snake_case)]
    pub fn get_PF(&self) -> (r: u16)
        ensures
            r == self.flags & PF_MASK,
    {
        self.flags & PF_MASK
    }

    /// Sets the zero flag.
    #[allow(non_snake_case)]
    pub fn set_ZF(&mut self)
        ensures
            *final(self) == with_flags(*old(self), old(self).flags | ZF_MASK),
    {
        self.flags = self.flags | ZF_MASK;
    }

    /// Clears the zero flag.
    #[allow(non_snake_case)]
    pub fn reset_ZF(&mut self)
        ensures
            *final(self) == with_flags(*old(self), old(self).flags & !ZF_MASK),
    {
        self.flags = self.flags & !ZF_MASK;
    }

    /// The zero bit of the flags word, in place.
    #[allow(non_snake_case)]
    pub fn get_ZF(&self) -> (r: u16)
        ensures
            r == self.flags & ZF_MASK,
    {
        self.flags & ZF_MASK
    }

    /// Sets the sign flag.
    #[allow(non_snake_case)]
    pub fn set_SF(&mut self)
        ensures
            *final(self) == with_flags(*old(self), old(self).flags | SF_MASK),
    {
        self.flags = self.flags | SF_MASK;
    }

    /// Clears the sign flag.
    #[allow(non_snake_case)]
    pub fn reset_SF(&mut self)
        ensures
            *final(self) == with_flags(*old(self), old(self).flags & !SF_MASK),
    {
        self.flags = self.flags & !SF_MASK;
    }

    /// The sign bit of the flags word, in place.
    #[allow(non_snake_case)]
    pub fn get_SF(&self) -> (r: u16)
        ensures
            r == self.flags & SF_MASK,
    {
        self.flags & SF_MASK
    }

    /// Sets the overflow flag.
    #[allow(non_snake_case)]
    pub fn set_OF(&mut self)
        ensures
            *final(self) == with_flags(*old(self), old(self).flags | OF_MASK),
    {
        self.flags = self.flags | OF_MASK;
    }

    /// Clears the overflow flag.
    #[allow(non_snake_case)]
    pub fn reset_OF(&mut self)
        ensures
            *final(self) == with_flags(*old(self), old(self).flags & !OF_MASK),
    {
        self.flags = self.flags & !OF_MASK;
    }

    /// The overflow bit of the flags word, in place.
    #[allow(non_snake_case)]
    pub fn get_OF(&self) -> (r: u16)
        ensures
            r == self.flags & OF_MASK,
    {
        self.flags & OF_MASK
    }
}

/// The flag names a flags word spells out, in the fixed CF PF ZF SF IF DF
/// OF order, with a fallback text when no flag is set.
pub open spec fn describe_flags_spec(f: u16) -> Seq<char> {
    let s = (if f & CF_MASK != 0 {
        "CF"@
    } else {
        Seq::<char>::empty()
    }) + (if f & PF_MASK != 0 {
        " PF"@
    } else {
        Seq::<char>::empty()
    }) + (if f & ZF_MASK != 0 {
        " ZF"@
    } else {
        Seq::<char>::empty()
    }) + (if f & SF_MASK != 0 {
        " SF"@
    } else {
        Seq::<char>::empty()
    }) + (if f & IF_MASK != 0 {
        " IF"@
    } else {
        Seq::<char>::empty()
    }) + (if f & DF_MASK != 0 {
        " DF"@
    } else {
        Seq::<char>::empty()
    }) + (if f & OF_MASK != 0 {
        " OF"@
    } else {
        Seq::<char>::empty()
    });
    if s.len() == 0 {
        "no flag yet"@
    } else {
        s
    }
}

impl CpuContext {
    /// Spells out the set flags for display.
    pub fn describe_flags(&self) -> (r: String)
        ensures
            r@ == describe_flags_spec(self.flags),
    {
        let mut r = String::new();
        if self.flags & CF_MASK != 0 {
            r.append("CF");
        }
        if self.flags & PF_MASK != 0 {
            r.append(" PF");
        }
        if self.flags & ZF_MASK != 0 {
            r.append(" ZF");
        }
        if self.flags & SF_MASK != 0 {
            r.append(" SF");
        }
        if self.flags & IF_MASK != 0 {
            r.append(" IF");
        }
        if self.flags & DF_MASK != 0 {
            r.append(" DF");
        }
        if self.flags & OF_MASK != 0 {
            r.append(" OF");
        }
        if r.as_str().unicode_len() == 0 {
            r.append("no flag yet");
        }
        proof {
            assert(r@ =~= describe_flags_spec(self.flags));
        }
        r
    }
}

/// Law: writing an 8-bit half does not disturb its sibling half, and the
/// written half reads back exactly the value written.
pub proof fn lemma_set8_preserves_sibling(c: CpuContext, r: Reg8, v: u8)
    ensures
        get8_spec(set8_spec(c, r, v), r) == v,
        get8_spec(set8_spec(c, r, v), sibling(r)) == get8_spec(c, sibling(r)),
{
    let w = get16_spec(c, parent16(r));
    if is_high_half(r) {
        let w2 = (((v as u16) << 8) | (w & 0x00ff)) as u16;
        assert(((w2 & 0xff00) >> 8) as u8 == v && (w2 & 0x00ff) as u8 == (w & 0x00ff) as u8)
            by (bit_vector)
            requires
                w2 == (((v as u16) << 8) | (w & 0x00ff)) as u16,
        ;
    } else {
        let w2 = ((w & 0xff00) | (v as u16)) as u16;
        assert((w2 & 0x00ff) as u8 == v && ((w2 & 0xff00) >> 8) as u8 == ((w & 0xff00) >> 8) as u8)
            by (bit_vector)
            requires
                w2 == ((w & 0xff00) | (v as u16)) as u16,
        ;
    }
}

} // verus!
