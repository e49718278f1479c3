use emu8086::errors::EmuError;
use emu8086::parser::{_imm_to_num, imm_to_num, mem_to_num};

#[test]
fn test_parser_imm_to_num() {
    assert_eq!(Ok(0x1a3), _imm_to_num("0x1a3"));
    assert_eq!(Ok(0x123), _imm_to_num("123h"));
    assert_eq!(Ok(0xabc), _imm_to_num("0abch"));
    assert_eq!(Ok(0x45), _imm_to_num("045h"));

    assert_eq!(Err(EmuError::InvalidImmediateFormat), _imm_to_num("0xghi"));
}

#[test]
fn test_imm_to_num_forms() {
    assert_eq!(Ok(0x1234), imm_to_num("0x1234"));
    assert_eq!(Ok(0xabcd), imm_to_num("0abcdh"));
    assert_eq!(Ok(0x1abc), imm_to_num("1abch"));
    assert_eq!(Ok(0xABCD), imm_to_num("0xABCD"));
    assert_eq!(Ok(0xffff), imm_to_num("0xffff"));
    assert_eq!(Ok(0), imm_to_num("0x0"));
}

#[test]
fn test_imm_to_num_rejections() {
    // bare decimal is not a hexadecimal literal form
    assert_eq!(Err(EmuError::InvalidImmediateFormat), imm_to_num("1234"));
    // empty digit strings
    assert_eq!(Err(EmuError::InvalidImmediateFormat), imm_to_num("0x"));
    assert_eq!(Err(EmuError::InvalidImmediateFormat), imm_to_num("h"));
    // too large for 16 bits
    assert_eq!(Err(EmuError::InvalidImmediateFormat), imm_to_num("0x10000"));
    assert_eq!(Err(EmuError::InvalidImmediateFormat), imm_to_num("10000h"));
    assert_eq!(Err(EmuError::InvalidImmediateFormat), imm_to_num(""));
}

#[test]
fn test_mem_to_num_forms() {
    assert_eq!(Ok(0x1234), mem_to_num("[0x1234]"));
    assert_eq!(Ok(0x1234), mem_to_num("word ptr [0x1234]"));
    assert_eq!(Ok(0x12), mem_to_num("byte ptr [12h]"));
    assert_eq!(Ok(0x1234), mem_to_num("[1234h]"));
}

#[test]
fn test_mem_to_num_rejections() {
    assert_eq!(Err(EmuError::InvalidImmediateFormat), mem_to_num("0x1234"));
    assert_eq!(Err(EmuError::InvalidImmediateFormat), mem_to_num("[]"));
    assert_eq!(Err(EmuError::InvalidImmediateFormat), mem_to_num("]12h["));
    assert_eq!(Err(EmuError::InvalidImmediateFormat), mem_to_num("[1234]"));
}
