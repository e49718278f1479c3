use emu8086::add::{do_add16, handler_add};
use emu8086::cpucontext::CpuContext;
use emu8086::errors::EmuError;
use emu8086::memory::Memory;
use emu8086::parser::Operand;

fn reg(name: &str) -> Operand {
    Operand::Register16(name.to_string())
}

fn imm(text: &str) -> Operand {
    Operand::Imm(text.to_string())
}

fn mem(text: &str) -> Operand {
    Operand::Mem16(text.to_string())
}

#[test]
fn test_add_overflow() {
    let mut cpu = CpuContext::boot();

    // Plus + Plus = Minus => Overflow error!
    do_add16(&mut cpu, u16::MAX / 2, u16::MAX / 2);
    assert_ne!(0, cpu.get_OF());

    // 0xffff + 1 = 0x10000 => 0x0 as u16.
    // There is no overflow because -1 + 1 = 0.
    // But there is a carry.
    do_add16(&mut cpu, u16::MAX, 1);
    assert_eq!(0, cpu.get_OF());

    // Plus + Plus = Minus => Overflow error!
    do_add16(&mut cpu, 0x7fff, 1);
    assert_ne!(0, cpu.get_OF());
}

#[test]
fn test_add_carry() {
    let mut cpu = CpuContext::boot();

    // 0xffff + 1 = 0x10000 => 0x0 as u16.
    // There is no overflow because -1 + 1 = 0.
    // But there is a carry.
    do_add16(&mut cpu, u16::MAX, 1);
    assert_eq!(0, cpu.get_OF());
    assert_ne!(0, cpu.get_CF());

    do_add16(&mut cpu, 1, 1);
    assert_eq!(0, cpu.get_OF());
    assert_eq!(0, cpu.get_CF());
}

#[test]
fn test_add_wraps_to_zero() {
    let mut cpu = CpuContext::boot();
    let r = do_add16(&mut cpu, 0xFFFF, 0x0001);
    assert_eq!(0x0000, r);
    assert_ne!(0, cpu.get_CF());
    assert_eq!(0, cpu.get_OF());
}

#[test]
fn test_add_overflow_example() {
    let mut cpu = CpuContext::boot();
    let r = do_add16(&mut cpu, 0x7FFF, 0x0001);
    assert_eq!(0x8000, r);
    assert_ne!(0, cpu.get_OF());
    assert_eq!(0, cpu.get_CF());
}

#[test]
fn test_add_zero_is_identity() {
    for d in [0u16, 1, 0x7fff, 0x8000, 0xffff] {
        let mut cpu = CpuContext::boot();
        let r = do_add16(&mut cpu, d, 0);
        assert_eq!(d, r);
        assert_eq!(0, cpu.get_CF());
        assert_eq!(0, cpu.get_OF());
    }
}

#[test]
fn test_add_reg_reg() {
    let mut cpu = CpuContext::boot();
    let mut memory = Memory::boot();
    cpu.set_register16("cx", 0x1200).unwrap();
    cpu.set_register16("bx", 0x0034).unwrap();
    handler_add(&mut cpu, &mut memory, &reg("cx"), &reg("bx")).unwrap();
    assert_eq!(0x1234, cpu.get_register16("cx").unwrap());
    assert_eq!(0x0034, cpu.get_register16("bx").unwrap());
    assert_eq!(0, cpu.get_CF() | cpu.get_OF());
}

#[test]
fn test_add_mem_reg() {
    let mut cpu = CpuContext::boot();
    let mut memory = Memory::boot();
    memory.write16(0x1234, 0x0100).unwrap();
    cpu.set_register16("ax", 0x0023).unwrap();
    handler_add(&mut cpu, &mut memory, &mem("[0x1234]"), &reg("ax")).unwrap();
    assert_eq!(0x0123, memory.read16(0x1234).unwrap());
    assert_eq!(0x0023, cpu.get_register16("ax").unwrap());
}

#[test]
fn test_add_reg_imm() {
    let mut cpu = CpuContext::boot();
    let mut memory = Memory::boot();
    cpu.set_register16("ax", 0x0001).unwrap();
    handler_add(&mut cpu, &mut memory, &reg("ax"), &imm("0x1233")).unwrap();
    assert_eq!(0x1234, cpu.get_register16("ax").unwrap());
}

#[test]
fn test_add_mem_imm() {
    let mut cpu = CpuContext::boot();
    let mut memory = Memory::boot();
    memory.write16(0x10, 0x1111).unwrap();
    handler_add(&mut cpu, &mut memory, &mem("[10h]"), &imm("0x2222")).unwrap();
    assert_eq!(0x3333, memory.read16(0x10).unwrap());
}

#[test]
fn test_add_indirect_imm() {
    // indirect forms are a reported gap for add, not a crash
    let mut cpu = CpuContext::boot();
    let mut memory = Memory::boot();
    let ind = Operand::Indirect16 {
        base: Some("bx".to_string()),
        index: Some("si".to_string()),
        disp: "10h".to_string(),
    };
    assert_eq!(
        Err(EmuError::UnsupportedOperandForm),
        handler_add(&mut cpu, &mut memory, &ind, &imm("0x1"))
    );
}

#[test]
fn test_add_indirect_reg() {
    let mut cpu = CpuContext::boot();
    let mut memory = Memory::boot();
    let ind = Operand::Indirect16 {
        base: Some("bx".to_string()),
        index: None,
        disp: "0x0".to_string(),
    };
    assert_eq!(
        Err(EmuError::UnsupportedOperandForm),
        handler_add(&mut cpu, &mut memory, &ind, &reg("ax"))
    );
}

#[test]
fn test_add_reg_mem_reads_memory() {
    let mut cpu = CpuContext::boot();
    let mut memory = Memory::boot();
    memory.write16(0x000c, 0x0111).unwrap();
    cpu.set_register16("ax", 0x0222).unwrap();
    handler_add(&mut cpu, &mut memory, &reg("ax"), &mem("[0ch]")).unwrap();
    assert_eq!(0x0333, cpu.get_register16("ax").unwrap());
    assert_eq!(0x0111, memory.read16(0x000c).unwrap());
}

#[test]
fn test_add_errors_leave_state_alone() {
    let mut cpu = CpuContext::boot();
    let mut memory = Memory::boot();
    cpu.set_register16("ax", 7).unwrap();
    assert_eq!(
        Err(EmuError::UnknownRegister),
        handler_add(&mut cpu, &mut memory, &reg("zz"), &reg("ax"))
    );
    assert_eq!(
        Err(EmuError::InvalidImmediateFormat),
        handler_add(&mut cpu, &mut memory, &reg("ax"), &imm("1234"))
    );
    assert_eq!(7, cpu.get_register16("ax").unwrap());
}
