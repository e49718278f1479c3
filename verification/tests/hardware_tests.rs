use emu8086::errors::EmuError;
use emu8086::hardware::{Hardware8086, Instruction, StepOutcome};
use emu8086::parser::Operand;

fn reg(name: &str) -> Operand {
    Operand::Register16(name.to_string())
}

fn imm(text: &str) -> Operand {
    Operand::Imm(text.to_string())
}

#[test]
fn test_build_program_table() {
    let mut hw = Hardware8086::new();
    let program = vec![
        "org 100h".to_string(),
        "mov ax, 0x1".to_string(),
        "loop:".to_string(),
        "inc ax".to_string(),
        "jmp loop".to_string(),
    ];
    hw.build_program_table(&program);
    assert_eq!(Some(2), hw.find_label("loop"));
    assert_eq!(None, hw.find_label("done"));
}

#[test]
fn test_handle_instruction_sequence() {
    let mut hw = Hardware8086::new();
    let program = vec![
        "org 100h".to_string(),
        "mov ax, 0x1".to_string(),
        "loop:".to_string(),
        "inc ax".to_string(),
        "jmp loop".to_string(),
    ];
    hw.build_program_table(&program);

    let next = hw
        .handle_instruction(0, &Instruction::Org(imm("100h")))
        .unwrap();
    assert_eq!(StepOutcome { nextline: 1, resolved: true }, next);
    let next = next.nextline;
    assert_eq!(0x0000, hw.cpu.get_register16("cs").unwrap());
    assert_eq!(0x0100, hw.cpu.get_register16("ip").unwrap());

    let next = hw
        .handle_instruction(next, &Instruction::Mov(reg("ax"), imm("0x1")))
        .unwrap()
        .nextline;
    assert_eq!(2, next);
    assert_eq!(1, hw.cpu.get_register16("ax").unwrap());

    let next = hw.handle_instruction(next, &Instruction::Label).unwrap().nextline;
    assert_eq!(3, next);

    let next = hw
        .handle_instruction(next, &Instruction::Inc(reg("ax")))
        .unwrap()
        .nextline;
    assert_eq!(4, next);
    assert_eq!(2, hw.cpu.get_register16("ax").unwrap());

    // jmp resumes right after the label line
    let next = hw
        .handle_instruction(next, &Instruction::Jmp(Operand::Label("loop".to_string())))
        .unwrap();
    assert_eq!(StepOutcome { nextline: 3, resolved: true }, next);
}

#[test]
fn test_jmp_to_unknown_label_falls_through() {
    let mut hw = Hardware8086::new();
    let program = vec!["jmp nowhere".to_string()];
    hw.build_program_table(&program);
    let next = hw
        .handle_instruction(0, &Instruction::Jmp(Operand::Label("nowhere".to_string())))
        .unwrap();
    // the fall-through is reported as unresolved, not as a silent no-op
    assert_eq!(StepOutcome { nextline: 1, resolved: false }, next);
}

#[test]
fn test_handle_instruction_reports_errors() {
    let mut hw = Hardware8086::new();
    hw.build_program_table(&vec!["mov qq, 0x1".to_string()]);
    assert_eq!(
        Err(EmuError::UnknownRegister),
        hw.handle_instruction(0, &Instruction::Mov(reg("qq"), imm("0x1")))
    );
    // a failed step changes nothing
    assert_eq!(0, hw.cpu.get_register16("ax").unwrap());
}

#[test]
fn test_hardware_reboot() {
    let mut hw = Hardware8086::new();
    hw.build_program_table(&vec!["mov ax, 0x5".to_string()]);
    hw.handle_instruction(0, &Instruction::Mov(reg("ax"), imm("0x5")))
        .unwrap();
    hw.memory.write16(0x10, 0xBEEF).unwrap();
    hw.reboot();
    assert_eq!(0, hw.cpu.get_register16("ax").unwrap());
    assert_eq!(0xffff, hw.cpu.get_register16("cs").unwrap());
    assert_eq!(0, hw.memory.read16(0x10).unwrap());
    // the loaded program survives a reboot
    assert_eq!(None, hw.find_label("loop"));
    assert!(hw
        .handle_instruction(0, &Instruction::Mov(reg("ax"), imm("0x5")))
        .is_ok());
}
