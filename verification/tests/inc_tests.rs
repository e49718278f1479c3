use emu8086::cpucontext::CpuContext;
use emu8086::errors::EmuError;
use emu8086::inc::{assemble_inc, handler_inc};
use emu8086::memory::Memory;
use emu8086::parser::Operand;

fn indirect16(base: Option<&str>, index: Option<&str>, disp: &str) -> Operand {
    Operand::Indirect16 {
        base: base.map(|s| s.to_string()),
        index: index.map(|s| s.to_string()),
        disp: disp.to_string(),
    }
}

fn indirect8(base: Option<&str>, index: Option<&str>, disp: &str) -> Operand {
    Operand::Indirect8 {
        base: base.map(|s| s.to_string()),
        index: index.map(|s| s.to_string()),
        disp: disp.to_string(),
    }
}

#[test]
fn test_inc_onebyte_form() {
    let operand = Operand::Register16("di".to_string());
    let v = assemble_inc(&operand).unwrap();
    assert_eq!(0x47, v[0]);
    assert_eq!(1, v.len());
}

#[test]
fn test_inc_twobyte_form() {
    let operand = Operand::Register8("dl".to_string());
    let v = assemble_inc(&operand).unwrap();
    assert_eq!(0xfe, v[0]);
    assert_eq!(0xc2, v[1]);
}

#[test]
fn test_inc_fourbyte_form_direct_addressing() {
    let operand = Operand::Mem16("[1234h]".to_string());
    let v = assemble_inc(&operand).unwrap();
    assert_eq!(0xff, v[0]);
    assert_eq!(0x06, v[1]);
    assert_eq!(0x34, v[2]);
    assert_eq!(0x12, v[3]);

    let operand = Operand::Mem16("[12h]".to_string());
    let v = assemble_inc(&operand).unwrap();
    assert_eq!(0xff, v[0]);
    assert_eq!(0x06, v[1]);
    assert_eq!(0x12, v[2]);
    assert_eq!(0x00, v[3]);

    let operand = Operand::Mem8("byte ptr [12h]".to_string());
    let v = assemble_inc(&operand).unwrap();
    assert_eq!(0xfe, v[0]);
    assert_eq!(0x06, v[1]);
    assert_eq!(0x12, v[2]);
    assert_eq!(0x00, v[3]);
}

#[test]
fn test_inc_fourbyte_form_indirect_addressing() {
    let operand = indirect16(Some("bx"), Some("si"), "1234h");
    let v = assemble_inc(&operand).unwrap();
    assert_eq!(0xff, v[0]);
    assert_eq!(0x80, v[1]);
    assert_eq!(0x34, v[2]);
    assert_eq!(0x12, v[3]);

    let operand = indirect16(Some("bx"), None, "12h");
    let v = assemble_inc(&operand).unwrap();
    assert_eq!(0xff, v[0]);
    assert_eq!(0x87, v[1]);
    assert_eq!(0x12, v[2]);
    assert_eq!(0x00, v[3]);

    let operand = indirect16(None, Some("si"), "12h");
    let v = assemble_inc(&operand).unwrap();
    assert_eq!(0xff, v[0]);
    assert_eq!(0x84, v[1]);
    assert_eq!(0x12, v[2]);
    assert_eq!(0x00, v[3]);

    let operand = indirect8(None, Some("si"), "12h");
    let v = assemble_inc(&operand).unwrap();
    assert_eq!(0xfe, v[0]);
    assert_eq!(0x84, v[1]);
    assert_eq!(0x12, v[2]);
    assert_eq!(0x00, v[3]);
}

#[test]
fn test_inc_register() {
    let mut cpu = CpuContext::boot();
    let mut memory = Memory::boot();

    cpu.set_register("bx", 0x1234).unwrap();
    let operand = Operand::Register16("bx".to_string());
    handler_inc(&mut cpu, &mut memory, &operand).unwrap();
    assert_eq!(0x1235, cpu.get_register("bx").unwrap());

    let operand = Operand::Register8("bl".to_string());
    handler_inc(&mut cpu, &mut memory, &operand).unwrap();
    assert_eq!(0x1236, cpu.get_register("bx").unwrap());
}

#[test]
fn test_inc_memory() {
    let mut cpu = CpuContext::boot();
    let mut memory = Memory::boot();

    memory.write16(0x1110, 0x1234).unwrap();
    cpu.set_register("bx", 0x1000).unwrap();
    cpu.set_register("si", 0x100).unwrap();
    let operand = indirect16(Some("bx"), Some("si"), "10h");
    handler_inc(&mut cpu, &mut memory, &operand).unwrap();
    assert_eq!(0x1235, memory.read16(0x1110).unwrap());
    // base and index registers are untouched
    assert_eq!(0x1000, cpu.get_register("bx").unwrap());
    assert_eq!(0x100, cpu.get_register("si").unwrap());

    let operand = indirect8(Some("bx"), Some("si"), "10h");
    handler_inc(&mut cpu, &mut memory, &operand).unwrap();
    // the byte at the effective address goes from 0x35 to 0x36
    assert_eq!(0x1236, memory.read16(0x1110).unwrap());
}

#[test]
fn test_inc_direct_memory() {
    let mut cpu = CpuContext::boot();
    let mut memory = Memory::boot();
    memory.write16(0x1234, 0x00ff).unwrap();
    let operand = Operand::Mem16("[1234h]".to_string());
    handler_inc(&mut cpu, &mut memory, &operand).unwrap();
    assert_eq!(0x0100, memory.read16(0x1234).unwrap());

    let operand = Operand::Mem8("byte ptr [1234h]".to_string());
    handler_inc(&mut cpu, &mut memory, &operand).unwrap();
    // only the byte at the address itself is incremented
    assert_eq!(0x0101, memory.read16(0x1234).unwrap());
}

#[test]
fn test_inc_wraps_and_sets_carry() {
    let mut cpu = CpuContext::boot();
    let mut memory = Memory::boot();
    cpu.set_register("ax", 0xffff).unwrap();
    let operand = Operand::Register16("ax".to_string());
    handler_inc(&mut cpu, &mut memory, &operand).unwrap();
    assert_eq!(0x0000, cpu.get_register("ax").unwrap());
    assert_ne!(0, cpu.get_CF());
    assert_eq!(0, cpu.get_OF());
}

#[test]
fn test_inc_unsupported_operand() {
    let mut cpu = CpuContext::boot();
    let mut memory = Memory::boot();
    let operand = Operand::Imm("0x1".to_string());
    assert_eq!(
        Err(EmuError::UnsupportedOperandForm),
        handler_inc(&mut cpu, &mut memory, &operand)
    );
}

#[test]
fn test_inc_bad_pairing_is_reported() {
    let mut cpu = CpuContext::boot();
    let mut memory = Memory::boot();
    let operand = indirect16(Some("si"), Some("di"), "10h");
    assert_eq!(
        Err(EmuError::UnsupportedAddressingForm),
        handler_inc(&mut cpu, &mut memory, &operand)
    );
}
