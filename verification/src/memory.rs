//! The flat 1 MiB byte-addressable memory of the emulated machine.
//!
//! 16-bit accesses are little-endian: the low byte sits at the lower
//! address.  Any access past the top of the array is reported as an
//! `AddressOutOfRange` error; the memory never wraps silently.

use vstd::prelude::*;

verus! {

use crate::errors::EmuError;

/// Size of the address space in bytes: 1 MiB, addresses 0..0xFFFFF.
pub const MEM_SIZE: usize = 0x100000;

/// Every byte of the sequence is zero.
pub open spec fn all_zero(s: Seq<u8>) -> bool {
    forall|i: int| 0 <= i < s.len() ==> s[i] == 0u8
}

/// The byte a 8-bit read at `a` returns.
pub open spec fn read8_spec(m: Seq<u8>, a: int) -> u8 {
    m[a]
}

/// The word a little-endian 16-bit read at `a` returns.
pub open spec fn read16_spec(m: Seq<u8>, a: int) -> u16 {
    (m[a] as u16) | ((m[a + 1] as u16) << 8)
}

/// The memory contents after an 8-bit write at `a`.
pub open spec fn write8_spec(m: Seq<u8>, a: int, v: u8) -> Seq<u8> {
    m.update(a, v)
}

/// The memory contents after a little-endian 16-bit write at `a`:
/// the low byte lands at `a`, the high byte at `a + 1`.
pub open spec fn write16_spec(m: Seq<u8>, a: int, v: u16) -> Seq<u8> {
    m.update(a, (v & 0xff) as u8).update(a + 1, ((v & 0xff00) >> 8) as u8)
}

/// A 1 MiB zero-filled byte vector.
fn zero_filled() -> (r: Vec<u8>)
    ensures
        r@.len() == MEM_SIZE,
        all_zero(r@),
{
    let mut data: Vec<u8> = Vec::new();
    let mut i: usize = 0;
    while i < MEM_SIZE
        invariant
            i == data@.len(),
            i <= MEM_SIZE,
            all_zero(data@),
        decreases MEM_SIZE - i,
    {
        data.push(0);
        i = i + 1;
    }
    data
}

/// The flat memory array of one emulated machine.
pub struct Memory {
    data: Vec<u8>,
}

impl View for Memory {
    type V = Seq<u8>;

    closed spec fn view(&self) -> Seq<u8> {
        self.data@
    }
}

impl Memory {
    /// The memory always spans exactly the 1 MiB address space.
    pub open spec fn wf(&self) -> bool {
        self@.len() == MEM_SIZE
    }

    /// Allocates the 1 MiB array, zero-filled.
    pub fn boot() -> (r: Self)
        ensures
            r.wf(),
            all_zero(r@),
    {
        Memory { data: zero_filled() }
    }

    /// Zero-fills the whole array again.
    pub fn reboot(&mut self)
        ensures
            final(self).wf(),
            all_zero(final(self)@),
    {
        self.data = zero_filled();
    }

    /// A copy of the whole memory contents, for external display.
    pub fn get(&self) -> (r: Vec<u8>)
        requires
            self.wf(),
        ensures
            r@ == self@,
    {
        let mut out: Vec<u8> = Vec::new();
        let mut i: usize = 0;
        while i < MEM_SIZE
            invariant
                self.wf(),
                i == out@.len(),
                i <= MEM_SIZE,
                forall|j: int| 0 <= j < i ==> out@[j] == self@[j],
            decreases MEM_SIZE - i,
        {
            out.push(self.data[i]);
            i = i + 1;
        }
        proof {
            assert(out@ =~= self@);
        }
        out
    }

    /// Reads one byte; an address past the top of memory is an error.
    pub fn read8(&self, address: usize) -> (r: Result<u8, EmuError>)
        requires
            self.wf(),
        ensures
            address < MEM_SIZE ==> r == Ok::<u8, EmuError>(read8_spec(self@, address as int)),
            address >= MEM_SIZE ==> r == Err::<u8, EmuError>(EmuError::AddressOutOfRange),
    {
        if address < MEM_SIZE {
            Ok(self.data[address])
        } else {
            Err(EmuError::AddressOutOfRange)
        }
    }

    /// Reads one little-endian word at `address` and `address + 1`; if either
    /// byte would lie past the top of memory the read is an error.
    pub fn read16(&self, address: usize) -> (r: Result<u16, EmuError>)
        requires
            self.wf(),
        ensures
            address + 1 < MEM_SIZE ==> r == Ok::<u16, EmuError>(read16_spec(self@, address as int)),
            address + 1 >= MEM_SIZE ==> r == Err::<u16, EmuError>(EmuError::AddressOutOfRange),
    {
        if address < MEM_SIZE - 1 {
            let lo = self.data[address];
            let hi = self.data[address + 1];
            Ok((lo as u16) | ((hi as u16) << 8))
        } else {
            Err(EmuError::AddressOutOfRange)
        }
    }

    /// Writes one byte; an address past the top of memory is an error and
    /// leaves the contents unchanged.
    pub fn write8(&mut self, address: usize, value: u8) -> (r: Result<(), EmuError>)
        requires
            old(self).wf(),
        ensures
            final(self).wf(),
            address < MEM_SIZE ==> r is Ok && final(self)@ == write8_spec(
                old(self)@,
                address as int,
                value,
            ),
            address >= MEM_SIZE ==> r == Err::<(), EmuError>(EmuError::AddressOutOfRange)
                && final(self)@ == old(self)@,
    {
        if address < MEM_SIZE {
            self.data[address] = value;
            Ok(())
        } else {
            Err(EmuError::AddressOutOfRange)
        }
    }

    /// Writes one little-endian word, low byte first; if either byte would
    /// lie past the top of memory nothing is written.
    pub fn write16(&mut self, address: usize, value: u16) -> (r: Result<(), EmuError>)
        requires
            old(self).wf(),
        ensures
            final(self).wf(),
            address + 1 < MEM_SIZE ==> r is Ok && final(self)@ == write16_spec(
                old(self)@,
                address as int,
                value,
            ),
            address + 1 >= MEM_SIZE ==> r == Err::<(), EmuError>(EmuError::AddressOutOfRange)
                && final(self)@ == old(self)@,
    {
        if address < MEM_SIZE - 1 {
            self.data[address] = (value & 0xff) as u8;
            self.data[address + 1] = ((value & 0xff00) >> 8) as u8;
            Ok(())
        } else {
            Err(EmuError::AddressOutOfRange)
        }
    }
}

/// The upper-case hexadecimal digit character of a value below 16.
pub open spec fn hex_digit_char(d: int) -> char {
    if d == 0 {
        '0'
    } else if d == 1 {
        '1'
    } else if d == 2 {
        '2'
    } else if d == 3 {
        '3'
    } else if d == 4 {
        '4'
    } else if d == 5 {
        '5'
    } else if d == 6 {
        '6'
    } else if d == 7 {
        '7'
    } else if d == 8 {
        '8'
    } else if d == 9 {
        '9'
    } else if d == 10 {
        'A'
    } else if d == 11 {
        'B'
    } else if d == 12 {
        'C'
    } else if d == 13 {
        'D'
    } else if d == 14 {
        'E'
    } else {
        'F'
    }
}

/// The two hexadecimal digits of one byte, high nibble first.
pub open spec fn byte_hex(b: u8) -> Seq<char> {
    seq![hex_digit_char(b as int / 16), hex_digit_char(b as int % 16)]
}

/// The five hexadecimal digits of a 20-bit address, most significant first.
pub open spec fn addr5_hex(a: int) -> Seq<char> {
    seq![
        hex_digit_char((a / 0x10000) % 16),
        hex_digit_char((a / 0x1000) % 16),
        hex_digit_char((a / 0x100) % 16),
        hex_digit_char((a / 16) % 16),
        hex_digit_char(a % 16),
    ]
}

/// The first `i` of a row's sixteen byte fields, space-separated.
pub open spec fn row_prefix(m: Seq<u8>, start: int, i: int) -> Seq<char>
    decreases i,
{
    if i <= 0 {
        Seq::<char>::empty()
    } else if i == 1 {
        byte_hex(m[start])
    } else {
        row_prefix(m, start, i - 1) + seq![' '] + byte_hex(m[start + i - 1])
    }
}

/// One row of the memory dump: the row's start address as five hexadecimal
/// digits, then the sixteen bytes from that address as two hexadecimal
/// digits each, all space-separated.
pub open spec fn dump_row_spec(m: Seq<u8>, start: int) -> Seq<char> {
    addr5_hex(start) + seq![' '] + row_prefix(m, start, 16)
}

/// One hexadecimal digit as text, upper case.
fn hex_digit_str(d: u8) -> (r: &'static str)
    requires
        d < 16,
    ensures
        r@ =~= seq![hex_digit_char(d as int)],
{
    proof {
        reveal_strlit("0");
        reveal_strlit("1");
        reveal_strlit("2");
        reveal_strlit("3");
        reveal_strlit("4");
        reveal_strlit("5");
        reveal_strlit("6");
        reveal_strlit("7");
        reveal_strlit("8");
        reveal_strlit("9");
        reveal_strlit("A");
        reveal_strlit("B");
        reveal_strlit("C");
        reveal_strlit("D");
        reveal_strlit("E");
        reveal_strlit("F");
    }
    match d {
        0 => "0",
        1 => "1",
        2 => "2",
        3 => "3",
        4 => "4",
        5 => "5",
        6 => "6",
        7 => "7",
        8 => "8",
        9 => "9",
        10 => "A",
        11 => "B",
        12 => "C",
        13 => "D",
        14 => "E",
        _ => "F",
    }
}

impl Memory {
    /// Renders one sixteen-byte dump row starting at the given address,
    /// in the fixed external display format; a row that would run past the
    /// top of memory is an error.
    pub fn dump_row(&self, start: usize) -> (r: Result<String, EmuError>)
        requires
            self.wf(),
        ensures
            start + 16 <= MEM_SIZE ==> (r matches Ok(s) && s@ == dump_row_spec(
                self@,
                start as int,
            )),
            start + 16 > MEM_SIZE ==> r == Err::<String, EmuError>(EmuError::AddressOutOfRange),
    {
        if start > MEM_SIZE - 16 {
            return Err(EmuError::AddressOutOfRange);
        }
        let mut s = String::new();
        s.append(hex_digit_str(((start / 0x10000) % 16) as u8));
        s.append(hex_digit_str(((start / 0x1000) % 16) as u8));
        s.append(hex_digit_str(((start / 0x100) % 16) as u8));
        s.append(hex_digit_str(((start / 16) % 16) as u8));
        s.append(hex_digit_str((start % 16) as u8));
        s.append(" ");
        proof {
            reveal_strlit(" ");
            assert(s@ =~= addr5_hex(start as int) + seq![' ']);
        }
        let mut i: usize = 0;
        while i < 16
            invariant
                self.wf(),
                start + 16 <= MEM_SIZE,
                i <= 16,
                s@ =~= addr5_hex(start as int) + seq![' '] + row_prefix(self@, start as int, i as int),
            decreases 16 - i,
        {
            if i > 0 {
                s.append(" ");
            }
            let b = self.data[start + i];
            s.append(hex_digit_str(b / 16));
            s.append(hex_digit_str(b % 16));
            proof {
                reveal_strlit(" ");
                assert(s@ =~= addr5_hex(start as int) + seq![' '] + row_prefix(
                    self@,
                    start as int,
                    i + 1,
                ));
            }
            i = i + 1;
        }
        proof {
            assert(s@ =~= dump_row_spec(self@, start as int));
        }
        Ok(s)
    }
}

/// Law: a 16-bit write is two little-endian byte stores, and reads back
/// whole: after `write16(a, v)` the byte at `a` is the low byte of `v`, the
/// byte at `a + 1` is the high byte, and a 16-bit read at `a` returns `v`.
pub proof fn lemma_write16_round_trip(m: Seq<u8>, a: int, v: u16)
    requires
        0 <= a,
        a + 1 < m.len(),
    ensures
        read8_spec(write16_spec(m, a, v), a) == (v & 0xff) as u8,
        read8_spec(write16_spec(m, a, v), a + 1) == ((v & 0xff00) >> 8) as u8,
        read16_spec(write16_spec(m, a, v), a) == v,
{
    let lo = (v & 0xff) as u8;
    let hi = ((v & 0xff00) >> 8) as u8;
    assert((lo as u16) | ((hi as u16) << 8) == v) by (bit_vector)
        requires
            lo == (v & 0xff) as u8,
            hi == ((v & 0xff00) >> 8) as u8,
    ;
}

} // verus!
