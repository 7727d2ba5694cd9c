use vstd::prelude::*;

use crate::cpu::{Address, Register, Value};

verus! {

/// One decoded instruction of the fixed instruction set, tagged with its
/// operands: register indices, 8-bit immediates, 12-bit addresses and
/// nibble counts. Produced fresh by `decode` on every fetch.
#[derive(Clone, Copy, Debug, PartialEq, Eq, Structural)]
pub enum Instruction {
    ClearScreen,
    Return,
    Jump(Address),
    Call(Address),
    CheckEqualValue(Register, Value),
    CheckNotEqualValue(Register, Value),
    CheckEqual(Register, Register),
    SetRegisterToValue(Register, Value),
    AddValueToRegister(Register, Value),
    SetRegister(Register, Register),
    Or(Register, Register),
    And(Register, Register),
    Xor(Register, Register),
    Add(Register, Register),
    Subtract { destination: Register, first: Register, second: Register },
    ShiftRight(Register),
    ShiftLeft(Register),
    CheckNotEqual(Register, Register),
    SetIndex(Address),
    Random(Register, Value),
    Display { vx: Register, vy: Register, pixel_height: Value },
    SkipIfKeyPressed(Register),
    SkipIfKeyNotPressed(Register),
    ReadDelayTimer(Register),
    WriteDelayTimer(Register),
    WriteSoundTimer(Register),
    AddRegisterToIndex(Register),
    WaitForKeyPress(Register),
    SetIndexToSprite(Register),
    StoreBCD(Register),
    StoreRegisters(Register),
    LoadRegisters(Register),
}

impl Instruction {
    /// What a 16-bit opcode decodes to, nibble by nibble: the high nibble
    /// picks the family; for the ambiguous families the lowest byte or
    /// nibble picks the operation. `None` stands for an opcode that matches
    /// no pattern.
    pub open spec fn decode_spec(opcode: u16) -> Option<Instruction> {
        let n1 = opcode / 0x1000;
        let x = (opcode / 0x100 % 16) as u8;
        let y = (opcode / 16 % 16) as u8;
        let n4 = opcode % 16;
        let nnn = opcode % 0x1000;
        let kk = (opcode % 256) as u8;
        if opcode == 0x00E0 {
            Some(Instruction::ClearScreen)
        } else if opcode == 0x00EE {
            Some(Instruction::Return)
        } else if n1 == 0x1 {
            Some(Instruction::Jump(nnn))
        } else if n1 == 0x2 {
            Some(Instruction::Call(nnn))
        } else if n1 == 0x3 {
            Some(Instruction::CheckEqualValue(x, kk))
        } else if n1 == 0x4 {
            Some(Instruction::CheckNotEqualValue(x, kk))
        } else if n1 == 0x5 && n4 == 0x0 {
            Some(Instruction::CheckEqual(x, y))
        } else if n1 == 0x6 {
            Some(Instruction::SetRegisterToValue(x, kk))
        } else if n1 == 0x7 {
            Some(Instruction::AddValueToRegister(x, kk))
        } else if n1 == 0x8 && n4 == 0x0 {
            Some(Instruction::SetRegister(x, y))
        } else if n1 == 0x8 && n4 == 0x1 {
            Some(Instruction::Or(x, y))
        } else if n1 == 0x8 && n4 == 0x2 {
            Some(Instruction::And(x, y))
        } else if n1 == 0x8 && n4 == 0x3 {
            Some(Instruction::Xor(x, y))
        } else if n1 == 0x8 && n4 == 0x4 {
            Some(Instruction::Add(x, y))
        } else if n1 == 0x8 && n4 == 0x5 {
            Some(Instruction::Subtract { destination: x, first: x, second: y })
        } else if n1 == 0x8 && n4 == 0x6 {
            Some(Instruction::ShiftRight(x))
        } else if n1 == 0x8 && n4 == 0x7 {
            Some(Instruction::Subtract { destination: x, first: y, second: x })
        } else if n1 == 0x8 && n4 == 0xE {
            Some(Instruction::ShiftLeft(x))
        } else if n1 == 0x9 && n4 == 0x0 {
            Some(Instruction::CheckNotEqual(x, y))
        } else if n1 == 0xA {
            Some(Instruction::SetIndex(nnn))
        } else if n1 == 0xC {
            Some(Instruction::Random(x, kk))
        } else if n1 == 0xD {
            Some(Instruction::Display { vx: x, vy: y, pixel_height: (n4 as u8) })
        } else if n1 == 0xE && kk == 0x9E {
            Some(Instruction::SkipIfKeyPressed(x))
        } else if n1 == 0xE && kk == 0xA1 {
            Some(Instruction::SkipIfKeyNotPressed(x))
        } else if n1 == 0xF && kk == 0x07 {
            Some(Instruction::ReadDelayTimer(x))
        } else if n1 == 0xF && kk == 0x15 {
            Some(Instruction::WriteDelayTimer(x))
        } else if n1 == 0xF && kk == 0x18 {
            Some(Instruction::WriteSoundTimer(x))
        } else if n1 == 0xF && kk == 0x1E {
            Some(Instruction::AddRegisterToIndex(x))
        } else if n1 == 0xF && kk == 0x0A {
            Some(Instruction::WaitForKeyPress(x))
        } else if n1 == 0xF && kk == 0x29 {
            Some(Instruction::SetIndexToSprite(x))
        } else if n1 == 0xF && kk == 0x33 {
            Some(Instruction::StoreBCD(x))
        } else if n1 == 0xF && kk == 0x55 {
            Some(Instruction::StoreRegisters(x))
        } else if n1 == 0xF && kk == 0x65 {
            Some(Instruction::LoadRegisters(x))
        } else {
            None
        }
    }

    /// Decodes one 16-bit opcode; `None` means no pattern matched, which a
    /// running machine surfaces as a fatal unknown-opcode error.
    pub fn decode(opcode: u16) -> (r: Option<Instruction>)
        ensures
            r == Self::decode_spec(opcode),
    {
        let n1: u16 = opcode / 0x1000;
        let x: u8 = (opcode / 0x100 % 16) as u8;
        let y: u8 = (opcode / 16 % 16) as u8;
        let n4: u16 = opcode % 16;
        let nnn: u16 = opcode % 0x1000;
        let kk: u8 = (opcode % 256) as u8;
        if opcode == 0x00E0 {
            Some(Instruction::ClearScreen)
        } else if opcode == 0x00EE {
            Some(Instruction::Return)
        } else if n1 == 0x1 {
            Some(Instruction::Jump(nnn))
        } else if n1 == 0x2 {
            Some(Instruction::Call(nnn))
        } else if n1 == 0x3 {
            Some(Instruction::CheckEqualValue(x, kk))
        } else if n1 == 0x4 {
            Some(Instruction::CheckNotEqualValue(x, kk))
        } else if n1 == 0x5 && n4 == 0x0 {
            Some(Instruction::CheckEqual(x, y))
        } else if n1 == 0x6 {
            Some(Instruction::SetRegisterToValue(x, kk))
        } else if n1 == 0x7 {
            Some(Instruction::AddValueToRegister(x, kk))
        } else if n1 == 0x8 && n4 == 0x0 {
            Some(Instruction::SetRegister(x, y))
        } else if n1 == 0x8 && n4 == 0x1 {
            Some(Instruction::Or(x, y))
        } else if n1 == 0x8 && n4 == 0x2 {
            Some(Instruction::And(x, y))
        } else if n1 == 0x8 && n4 == 0x3 {
            Some(Instruction::Xor(x, y))
        } else if n1 == 0x8 && n4 == 0x4 {
            Some(Instruction::Add(x, y))
        } else if n1 == 0x8 && n4 == 0x5 {
            Some(Instruction::Subtract { destination: x, first: x, second: y })
        } else if n1 == 0x8 && n4 == 0x6 {
            Some(Instruction::ShiftRight(x))
        } else if n1 == 0x8 && n4 == 0x7 {
            Some(Instruction::Subtract { destination: x, first: y, second: x })
        } else if n1 == 0x8 && n4 == 0xE {
            Some(Instruction::ShiftLeft(x))
        } else if n1 == 0x9 && n4 == 0x0 {
            Some(Instruction::CheckNotEqual(x, y))
        } else if n1 == 0xA {
            Some(Instruction::SetIndex(nnn))
        } else if n1 == 0xC {
            Some(Instruction::Random(x, kk))
        } else if n1 == 0xD {
            Some(Instruction::Display { vx: x, vy: y, pixel_height: (n4 as u8) })
        } else if n1 == 0xE && kk == 0x9E {
            Some(Instruction::SkipIfKeyPressed(x))
        } else if n1 == 0xE && kk == 0xA1 {
            Some(Instruction::SkipIfKeyNotPressed(x))
        } else if n1 == 0xF && kk == 0x07 {
            Some(Instruction::ReadDelayTimer(x))
        } else if n1 == 0xF && kk == 0x15 {
            Some(Instruction::WriteDelayTimer(x))
        } else if n1 == 0xF && kk == 0x18 {
            Some(Instruction::WriteSoundTimer(x))
        } else if n1 == 0xF && kk == 0x1E {
            Some(Instruction::AddRegisterToIndex(x))
        } else if n1 == 0xF && kk == 0x0A {
            Some(Instruction::WaitForKeyPress(x))
        } else if n1 == 0xF && kk == 0x29 {
            Some(Instruction::SetIndexToSprite(x))
        } else if n1 == 0xF && kk == 0x33 {
            Some(Instruction::StoreBCD(x))
        } else if n1 == 0xF && kk == 0x55 {
            Some(Instruction::StoreRegisters(x))
        } else if n1 == 0xF && kk == 0x65 {
            Some(Instruction::LoadRegisters(x))
        } else {
            None
        }
    }
}

} // verus!
