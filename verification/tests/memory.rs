use chip8::error::Chip8Error;
use chip8::memory::Memory;

#[test]
fn test_round_trip_single_bytes() {
    let mut memory = Memory::new();
    assert_eq!(memory.write_byte(0x300, 0xAB), Ok(()));
    assert_eq!(memory.read_byte(0x300), Ok(0xAB));
    assert_eq!(memory.read_byte(0x301), Ok(0x00));
}

#[test]
fn test_round_trip_block() {
    let mut memory = Memory::new();
    let data = [1u8, 2, 3, 4, 5];
    assert_eq!(memory.write_bytes(0x200, &data), Ok(()));
    for (offset, expected) in data.iter().enumerate() {
        assert_eq!(memory.read_byte(0x200 + offset as u16), Ok(*expected));
    }
    assert_eq!(memory.read_byte(0x205), Ok(0));
    assert_eq!(memory.read_byte(0x1FF), Ok(0));
}

#[test]
fn test_block_at_the_very_end() {
    let mut memory = Memory::new();
    let data = [9u8, 8, 7];
    assert_eq!(memory.write_bytes(4093, &data), Ok(()));
    assert_eq!(memory.read_byte(4095), Ok(7));
}

#[test]
fn test_out_of_bounds_accesses_fail() {
    let mut memory = Memory::new();
    assert_eq!(
        memory.write_byte(4096, 1),
        Err(Chip8Error::OutOfBounds { address: 4096 })
    );
    assert_eq!(
        memory.read_byte(4096),
        Err(Chip8Error::OutOfBounds { address: 4096 })
    );
    let data = [1u8, 2, 3];
    assert_eq!(
        memory.write_bytes(4094, &data),
        Err(Chip8Error::OutOfBounds { address: 4094 })
    );
    // The failed block write changed nothing.
    assert_eq!(memory.read_byte(4094), Ok(0));
    assert_eq!(memory.read_byte(4095), Ok(0));
}

#[test]
fn test_read_word_is_big_endian() {
    let mut memory = Memory::new();
    assert_eq!(memory.write_byte(0x200, 0x12), Ok(()));
    assert_eq!(memory.write_byte(0x201, 0x34), Ok(()));
    assert_eq!(memory.read_word(0x200), Ok(0x1234));
    assert_eq!(
        memory.read_word(4095),
        Err(Chip8Error::OutOfBounds { address: 4095 })
    );
}
