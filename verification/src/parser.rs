//! Operand nodes and the numeric-literal conversions they carry.
//!
//! The textual grammar itself lives outside the core: a driver hands the
//! core already-split operand nodes.  What the core owns is the meaning of
//! the literals inside a node: hexadecimal immediates in the `0xHHHH` and
//! `HHHHh` forms, and the bracketed address of a direct-memory operand.

use vstd::prelude::*;

verus! {

use crate::errors::EmuError;

/// One operand of an instruction, as the external parser delivers it:
/// register names, immediate literals and displacement literals stay
/// textual and are validated and converted here.
#[derive(Clone, Debug)]
pub enum Operand {
    /// A 16-bit register name such as `ax`.
    Register16(String),
    /// An 8-bit register name such as `al`.
    Register8(String),
    /// A hexadecimal immediate literal such as `0x1234` or `12h`.
    Imm(String),
    /// A word-width direct memory operand such as `[0x1234]`.
    Mem16(String),
    /// A byte-width direct memory operand such as `byte ptr [12h]`.
    Mem8(String),
    /// A word-width indirect memory operand: optional base register,
    /// optional index register, and a displacement literal.
    Indirect16 { base: Option<String>, index: Option<String>, disp: String },
    /// A byte-width indirect memory operand.
    Indirect8 { base: Option<String>, index: Option<String>, disp: String },
    /// A label name, the operand of `jmp`.
    Label(String),
}

/// Whether a character is a hexadecimal digit, upper or lower case.
pub open spec fn is_hex_digit(c: char) -> bool {
    ('0' as int <= c as int && c as int <= '9' as int) || ('a' as int <= c as int && c as int
        <= 'f' as int) || ('A' as int <= c as int && c as int <= 'F' as int)
}

/// The numeric value of a hexadecimal digit.
pub open spec fn hex_digit_val(c: char) -> nat {
    if '0' as int <= c as int && c as int <= '9' as int {
        (c as int - '0' as int) as nat
    } else if 'a' as int <= c as int && c as int <= 'f' as int {
        (c as int - 'a' as int + 10) as nat
    } else {
        (c as int - 'A' as int + 10) as nat
    }
}

/// Every character of the sequence is a hexadecimal digit.
pub open spec fn all_hex(s: Seq<char>) -> bool {
    forall|i: int| 0 <= i < s.len() ==> is_hex_digit(s[i])
}

/// The number a sequence of hexadecimal digits denotes, most significant
/// digit first.
pub open spec fn hex_value(s: Seq<char>) -> nat
    decreases s.len(),
{
    if s.len() == 0 {
        0
    } else {
        hex_value(s.drop_last()) * 16 + hex_digit_val(s.last())
    }
}

/// The 16-bit value of a bare digit string: defined exactly when the string
/// is non-empty, all digits are hexadecimal, and the value fits in 16 bits.
pub open spec fn parse_hex16(s: Seq<char>) -> Option<u16> {
    if s.len() > 0 && all_hex(s) && hex_value(s) <= 0xffff {
        Some(hex_value(s) as u16)
    } else {
        None
    }
}

/// The value of an immediate literal: either `0x` followed by hexadecimal
/// digits, or hexadecimal digits followed by `h`.
pub open spec fn imm_to_num_spec(s: Seq<char>) -> Option<u16> {
    if s.len() >= 2 && s[0] == '0' && s[1] == 'x' {
        parse_hex16(s.skip(2))
    } else if s.len() >= 1 && s[s.len() - 1] == 'h' {
        parse_hex16(s.take(s.len() - 1))
    } else {
        None
    }
}

/// The value of a digit-string prefix: prefixes never denote more than the
/// whole string does.
proof fn lemma_hex_value_prefix_le(s: Seq<char>, i: int)
    requires
        0 <= i <= s.len(),
    ensures
        hex_value(s.take(i)) <= hex_value(s),
    decreases s.len() - i,
{
    if i < s.len() {
        assert(s.take(i + 1).drop_last() =~= s.take(i));
        assert(s.take(i + 1).last() == s[i]);
        assert(hex_value(s.take(i + 1)) == hex_value(s.take(i)) * 16 + hex_digit_val(s[i]));
        lemma_hex_value_prefix_le(s, i + 1);
    } else {
        assert(s.take(i) =~= s);
    }
}

/// The numeric value of one hexadecimal digit character, if it is one.
fn hex_digit_of_char(c: char) -> (r: Option<u8>)
    ensures
        is_hex_digit(c) ==> r == Some(hex_digit_val(c) as u8),
        !is_hex_digit(c) ==> r is None,
{
    let cc = c as u32;
    if cc >= 48 && cc <= 57 {
        Some((cc - 48) as u8)
    } else if cc >= 97 && cc <= 102 {
        Some((cc - 97 + 10) as u8)
    } else if cc >= 65 && cc <= 70 {
        Some((cc - 65 + 10) as u8)
    } else {
        None
    }
}

/// Converts a bare string of hexadecimal digits to its 16-bit value.
fn hex_str_value(s: &str) -> (r: Option<u16>)
    ensures
        r == parse_hex16(s@),
{
    let n = s.unicode_len();
    if n == 0 {
        return None;
    }
    let mut i: usize = 0;
    let mut v: u32 = 0;
    while i < n
        invariant
            0 < n == s@.len(),
            i <= n,
            all_hex(s@.take(i as int)),
            v == hex_value(s@.take(i as int)),
            v <= 0xffff,
        decreases n - i,
    {
        let c = s.get_char(i);
        proof {
            assert(s@.take(i + 1).drop_last() =~= s@.take(i as int));
            assert(s@.take(i + 1).last() == s@[i as int]);
        }
        match hex_digit_of_char(c) {
            Some(d) => {
                let v2 = v * 16 + (d as u32);
                if v2 > 0xffff {
                    proof {
                        lemma_hex_value_prefix_le(s@, i + 1);
                    }
                    return None;
                }
                v = v2;
            },
            None => {
                return None;
            },
        }
        i = i + 1;
    }
    proof {
        assert(s@.take(n as int) =~= s@);
    }
    Some(v as u16)
}

/// Converts an immediate literal in the `0xHHHH` or `HHHHh` form to its
/// 16-bit value; anything else is a malformed immediate.
pub fn _imm_to_num(s: &str) -> (r: Result<u16, EmuError>)
    ensures
        imm_to_num_spec(s@) matches Some(v) ==> r == Ok::<u16, EmuError>(v),
        imm_to_num_spec(s@) is None ==> r == Err::<u16, EmuError>(EmuError::InvalidImmediateFormat),
{
    let n = s.unicode_len();
    if n >= 2 && s.get_char(0) == '0' && s.get_char(1) == 'x' {
        let digits = s.substring_char(2, n);
        proof {
            assert(digits@ =~= s@.skip(2));
        }
        match hex_str_value(digits) {
            Some(v) => Ok(v),
            None => Err(EmuError::InvalidImmediateFormat),
        }
    } else if n >= 1 && s.get_char(n - 1) == 'h' {
        let digits = s.substring_char(0, n - 1);
        proof {
            assert(digits@ =~= s@.take(n - 1));
        }
        match hex_str_value(digits) {
            Some(v) => Ok(v),
            None => Err(EmuError::InvalidImmediateFormat),
        }
    } else {
        Err(EmuError::InvalidImmediateFormat)
    }
}

/// Converts the text of an immediate operand node to its 16-bit value.
pub fn imm_to_num(s: &str) -> (r: Result<u16, EmuError>)
    ensures
        imm_to_num_spec(s@) matches Some(v) ==> r == Ok::<u16, EmuError>(v),
        imm_to_num_spec(s@) is None ==> r == Err::<u16, EmuError>(EmuError::InvalidImmediateFormat),
{
    _imm_to_num(s)
}

/// The index of the first occurrence of a character.
pub open spec fn find_char(s: Seq<char>, c: char) -> Option<int>
    decreases s.len(),
{
    if s.len() == 0 {
        None
    } else if s[0] == c {
        Some(0)
    } else {
        match find_char(s.drop_first(), c) {
            Some(i) => Some(i + 1),
            None => None,
        }
    }
}

/// `find_char` returns the first occurrence: the character stands there and
/// nowhere earlier, and a `None` means it occurs nowhere.
pub proof fn lemma_find_char_is_first(s: Seq<char>, c: char)
    ensures
        find_char(s, c) matches Some(i) ==> 0 <= i < s.len() && s[i] == c && (forall|j: int|
            0 <= j < i ==> s[j] != c),
        find_char(s, c) is None ==> forall|j: int| 0 <= j < s.len() ==> s[j] != c,
    decreases s.len(),
{
    if s.len() > 0 && s[0] != c {
        let t = s.drop_first();
        lemma_find_char_is_first(t, c);
        assert(forall|j: int| 0 <= j < t.len() ==> t[j] == s[j + 1]);
        match find_char(t, c) {
            Some(k) => {
                assert(find_char(s, c) == Some(k + 1));
                assert(s[k + 1] == t[k]);
                assert forall|j: int| 0 <= j < k + 1 implies s[j] != c by {
                    if j > 0 {
                        assert(t[j - 1] == s[j]);
                    }
                }
            },
            None => {
                assert forall|j: int| 0 <= j < s.len() implies s[j] != c by {
                    if j > 0 {
                        assert(t[j - 1] == s[j]);
                    }
                }
            },
        }
    }
}

/// Finds the first occurrence of a character in a string slice.
fn find_char_in(s: &str, c: char) -> (r: Option<usize>)
    ensures
        r matches Some(u) ==> find_char(s@, c) == Some(u as int),
        r is None ==> find_char(s@, c) is None,
{
    proof {
        lemma_find_char_is_first(s@, c);
    }
    let n = s.unicode_len();
    let mut i: usize = 0;
    while i < n
        invariant
            n == s@.len(),
            i <= n,
            forall|j: int| 0 <= j < i ==> s@[j] != c,
            find_char(s@, c) matches Some(k) ==> 0 <= k < s@.len() && s@[k] == c && (forall|j: int|
                0 <= j < k ==> s@[j] != c),
            find_char(s@, c) is None ==> forall|j: int| 0 <= j < s@.len() ==> s@[j] != c,
        decreases n - i,
    {
        if s.get_char(i) == c {
            return Some(i);
        }
        i = i + 1;
    }
    None
}

/// The address a direct-memory operand text denotes: the immediate literal
/// between the first `[` and the first `]`.
pub open spec fn mem_to_num_spec(s: Seq<char>) -> Option<u16> {
    match (find_char(s, '['), find_char(s, ']')) {
        (Some(i), Some(j)) => if i < j {
            imm_to_num_spec(s.subrange(i + 1, j))
        } else {
            None
        },
        _ => None,
    }
}

/// Extracts the address from a direct-memory operand text such as
/// `[0x1234]`, `word ptr [0x1234]` or `byte ptr [12h]`.
pub fn mem_to_num(s: &str) -> (r: Result<usize, EmuError>)
    ensures
        mem_to_num_spec(s@) matches Some(v) ==> r == Ok::<usize, EmuError>(v as usize),
        mem_to_num_spec(s@) is None ==> r == Err::<usize, EmuError>(
            EmuError::InvalidImmediateFormat,
        ),
{
    proof {
        lemma_find_char_is_first(s@, '[');
        lemma_find_char_is_first(s@, ']');
    }
    let start = match find_char_in(s, '[') {
        Some(i) => i,
        None => {
            return Err(EmuError::InvalidImmediateFormat);
        },
    };
    let end = match find_char_in(s, ']') {
        Some(j) => j,
        None => {
            return Err(EmuError::InvalidImmediateFormat);
        },
    };
    if start < end {
        let inner = s.substring_char(start + 1, end);
        proof {
            assert(inner@ =~= s@.subrange(start + 1, end as int));
        }
        match _imm_to_num(inner) {
            Ok(v) => Ok(v as usize),
            Err(e) => Err(e),
        }
    } else {
        Err(EmuError::InvalidImmediateFormat)
    }
}

} // verus!
