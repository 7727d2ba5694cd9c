use chip8::instructions::Instruction;

#[test]
fn test_decode_clear_screen() {
    let opcode = 0x00E0;
    let instruction = Instruction::decode(opcode).unwrap();
    assert_eq!(instruction, Instruction::ClearScreen);
}

#[test]
fn test_decode_jump() {
    let opcode = 0x1ABC;
    let instruction = Instruction::decode(opcode).unwrap();
    assert_eq!(instruction, Instruction::Jump(0xABC));
}

#[test]
fn test_decode_set_register() {
    let opcode = 0x6ABC;
    let instruction = Instruction::decode(opcode).unwrap();
    assert_eq!(instruction, Instruction::SetRegisterToValue(0xA, 0xBC));
}

#[test]
fn test_decode_add_value() {
    let opcode = 0x7ABC;
    let instruction = Instruction::decode(opcode).unwrap();
    assert_eq!(instruction, Instruction::AddValueToRegister(0xA, 0xBC));
}

#[test]
fn test_decode_set_index() {
    let opcode = 0xAABC;
    let instruction = Instruction::decode(opcode).unwrap();
    assert_eq!(instruction, Instruction::SetIndex(0xABC));
}

#[test]
fn test_decode_display() {
    let opcode = 0xD123;
    let instruction = Instruction::decode(opcode).unwrap();
    assert_eq!(
        instruction,
        Instruction::Display { vx: 1, vy: 2, pixel_height: 3 }
    );
}

#[test]
fn test_decode_return_and_calls() {
    assert_eq!(Instruction::decode(0x00EE).unwrap(), Instruction::Return);
    assert_eq!(Instruction::decode(0x2ABC).unwrap(), Instruction::Call(0xABC));
}

#[test]
fn test_decode_skips() {
    assert_eq!(
        Instruction::decode(0x3A42).unwrap(),
        Instruction::CheckEqualValue(0xA, 0x42)
    );
    assert_eq!(
        Instruction::decode(0x4A42).unwrap(),
        Instruction::CheckNotEqualValue(0xA, 0x42)
    );
    assert_eq!(
        Instruction::decode(0x5AB0).unwrap(),
        Instruction::CheckEqual(0xA, 0xB)
    );
    assert_eq!(
        Instruction::decode(0x9AB0).unwrap(),
        Instruction::CheckNotEqual(0xA, 0xB)
    );
}

#[test]
fn test_decode_register_ops() {
    assert_eq!(
        Instruction::decode(0x8AB0).unwrap(),
        Instruction::SetRegister(0xA, 0xB)
    );
    assert_eq!(Instruction::decode(0x8AB1).unwrap(), Instruction::Or(0xA, 0xB));
    assert_eq!(Instruction::decode(0x8AB2).unwrap(), Instruction::And(0xA, 0xB));
    assert_eq!(Instruction::decode(0x8AB3).unwrap(), Instruction::Xor(0xA, 0xB));
    assert_eq!(Instruction::decode(0x8AB4).unwrap(), Instruction::Add(0xA, 0xB));
    assert_eq!(
        Instruction::decode(0x8AB5).unwrap(),
        Instruction::Subtract { destination: 0xA, first: 0xA, second: 0xB }
    );
    assert_eq!(
        Instruction::decode(0x8AB6).unwrap(),
        Instruction::ShiftRight(0xA)
    );
    assert_eq!(
        Instruction::decode(0x8AB7).unwrap(),
        Instruction::Subtract { destination: 0xA, first: 0xB, second: 0xA }
    );
    assert_eq!(
        Instruction::decode(0x8ABE).unwrap(),
        Instruction::ShiftLeft(0xA)
    );
}

#[test]
fn test_decode_keyboard_and_timers() {
    assert_eq!(
        Instruction::decode(0xEA9E).unwrap(),
        Instruction::SkipIfKeyPressed(0xA)
    );
    assert_eq!(
        Instruction::decode(0xEAA1).unwrap(),
        Instruction::SkipIfKeyNotPressed(0xA)
    );
    assert_eq!(
        Instruction::decode(0xFA07).unwrap(),
        Instruction::ReadDelayTimer(0xA)
    );
    assert_eq!(
        Instruction::decode(0xFA15).unwrap(),
        Instruction::WriteDelayTimer(0xA)
    );
    assert_eq!(
        Instruction::decode(0xFA18).unwrap(),
        Instruction::WriteSoundTimer(0xA)
    );
    assert_eq!(
        Instruction::decode(0xFA0A).unwrap(),
        Instruction::WaitForKeyPress(0xA)
    );
}

#[test]
fn test_decode_index_and_memory_families() {
    assert_eq!(
        Instruction::decode(0xC042).unwrap(),
        Instruction::Random(0x0, 0x42)
    );
    assert_eq!(
        Instruction::decode(0xFA1E).unwrap(),
        Instruction::AddRegisterToIndex(0xA)
    );
    assert_eq!(
        Instruction::decode(0xFA29).unwrap(),
        Instruction::SetIndexToSprite(0xA)
    );
    assert_eq!(Instruction::decode(0xFA33).unwrap(), Instruction::StoreBCD(0xA));
    assert_eq!(
        Instruction::decode(0xFA55).unwrap(),
        Instruction::StoreRegisters(0xA)
    );
    assert_eq!(
        Instruction::decode(0xFA65).unwrap(),
        Instruction::LoadRegisters(0xA)
    );
}

#[test]
fn test_decode_unknown_opcodes() {
    assert_eq!(Instruction::decode(0x0000), None);
    assert_eq!(Instruction::decode(0x00E1), None);
    assert_eq!(Instruction::decode(0x5AB1), None);
    assert_eq!(Instruction::decode(0x8AB8), None);
    assert_eq!(Instruction::decode(0xB123), None);
    assert_eq!(Instruction::decode(0xE09F), None);
    assert_eq!(Instruction::decode(0xF066), None);
}
