use emu8086::errors::EmuError;
use emu8086::memory::{Memory, MEM_SIZE};

#[test]
fn test_memory_read8_write8() {
    let mut memory = Memory::boot();
    memory.write8(0, 0xAB).unwrap();
    memory.write8(1, 0xCD).unwrap();
    assert_eq!(0xAB, memory.read8(0).unwrap());
    assert_eq!(0xCD, memory.read8(1).unwrap());
}

#[test]
fn test_memory_read16_write16() {
    let mut memory = Memory::boot();
    memory.write8(0, 0xCD).unwrap();
    memory.write8(1, 0xAB).unwrap();
    // Check the little-endian reading
    assert_eq!(0xABCD, memory.read16(0).unwrap());
    memory.write16(0, 0xabcd).unwrap();
    // Check the little-endian writing
    assert_eq!(0xcd, memory.read8(0).unwrap());
    assert_eq!(0xab, memory.read8(1).unwrap());
}

#[test]
fn test_memory_debug() {
    let mut memory = Memory::boot();
    memory.write16(0x100, 0xabcd).unwrap();
    let s = memory.dump_row(0x100).unwrap();
    assert_eq!("00100 CD AB 00 00 00 00 00 00 00 00 00 00 00 00 00 00", s);
}

#[test]
fn test_memory_word_round_trip() {
    let mut memory = Memory::boot();
    memory.write16(0x500, 0xABCD).unwrap();
    assert_eq!(0xCD, memory.read8(0x500).unwrap());
    assert_eq!(0xAB, memory.read8(0x501).unwrap());
    assert_eq!(0xABCD, memory.read16(0x500).unwrap());
}

#[test]
fn test_memory_boot_is_zero_filled() {
    let memory = Memory::boot();
    assert_eq!(0, memory.read8(0).unwrap());
    assert_eq!(0, memory.read8(0x12345).unwrap());
    assert_eq!(0, memory.read8(MEM_SIZE - 1).unwrap());
}

#[test]
fn test_memory_reboot_clears() {
    let mut memory = Memory::boot();
    memory.write16(0x1110, 0x1234).unwrap();
    memory.write8(MEM_SIZE - 1, 0xFF).unwrap();
    memory.reboot();
    assert_eq!(0, memory.read16(0x1110).unwrap());
    assert_eq!(0, memory.read8(MEM_SIZE - 1).unwrap());
}

#[test]
fn test_memory_address_out_of_range() {
    let mut memory = Memory::boot();
    assert_eq!(Err(EmuError::AddressOutOfRange), memory.read8(MEM_SIZE));
    assert_eq!(Err(EmuError::AddressOutOfRange), memory.read16(MEM_SIZE - 1));
    assert_eq!(Err(EmuError::AddressOutOfRange), memory.write8(MEM_SIZE, 1));
    assert_eq!(Err(EmuError::AddressOutOfRange), memory.write16(MEM_SIZE - 1, 1));
    // the top byte itself is still addressable
    assert_eq!(0, memory.read8(MEM_SIZE - 1).unwrap());
    // and a failed write changed nothing
    assert_eq!(0, memory.read16(0).unwrap());
}

#[test]
fn test_memory_get_copies_contents() {
    let mut memory = Memory::boot();
    memory.write8(7, 0x5A).unwrap();
    let copy = memory.get();
    assert_eq!(MEM_SIZE, copy.len());
    assert_eq!(0x5A, copy[7]);
    assert_eq!(0, copy[8]);
}
