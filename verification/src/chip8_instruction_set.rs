//! The instruction set: the typed instructions, their two-byte encodings, and
//! the decoder from raw bytes to instructions.

use vstd::prelude::*;

verus! {

pub type RegisterTo = u8;

pub type Register = u8;

pub type Address = u16;

pub type Value = u8;

pub type RawInstruction = (u8, u8);

/// Lowest address at which program code lives.
pub const PROGRAM_START: u16 = 0x200;

#[derive(Debug, Clone, Copy, PartialEq, Eq, Structural)]
pub enum Instruction {
    ExecSubroutineML(Address),
    ClearScreen,
    ReturnFromSubroutine,
    JumpToAddress(Address),
    ExecSubroutine(Address),
    SkipFollowingIfRegEq(Register, Value),
    SkipFollowingIfRegNeq(Register, Value),
    SkipFollowingIfRegEqReg(Register, Register),
    StoreToReg(RegisterTo, Value),
    AddToReg(RegisterTo, Value),
    MoveValue(RegisterTo, Register),
    OrRegister(RegisterTo, Register),
    AndRegister(RegisterTo, Register),
    XorRegister(RegisterTo, Register),
    AddWithCarry(RegisterTo, Register),
    SubWithCarry(RegisterTo, Register),
    ShiftRight(RegisterTo, Register),
    SubWithCarry2(RegisterTo, Register),
    ShiftLeft(RegisterTo, Register),
    SkipIfNE(Register, Register),
    StoreAddressToI(Address),
    JumpWithOffset(Address),
    RandWithMask(RegisterTo, Value),
    DrawSprite(Register, RegisterTo, Value),
    SkipIfKeyPressed(Register),
    SkipIfKeyNotPressed(Register),
    ReadDelayTimer(RegisterTo),
    WaitForKey(RegisterTo),
    WriteDelayTimer(Register),
    WriteSoundTimer(Register),
    IncrementIWithReg(Register),
    GetSpriteDataAddress(Register),
    StoreBCD(Register),
    StoreRegisters(Register),
    FillRegisters(Register),
}

/// The opcode class: the high nibble of the first byte.
pub open spec fn class_of(raw: RawInstruction) -> u8 {
    raw.0 / 16
}

/// The 12-bit address operand: the low nibble of the first byte, then the
/// second byte.
pub open spec fn address_of(raw: RawInstruction) -> Address {
    ((raw.0 % 16) * 256 + raw.1) as u16
}

/// The register operand pair: the low nibble of the first byte and the high
/// nibble of the second.
pub open spec fn registers_of(raw: RawInstruction) -> (Register, Register) {
    (raw.0 % 16, raw.1 / 16)
}

/// The low nibble of the second byte: the sub-selector of several classes and
/// the height operand of a sprite.
pub open spec fn selector_of(raw: RawInstruction) -> u8 {
    raw.1 % 16
}

/// An address operand that a control transfer or an address load accepts:
/// one inside program space.
pub open spec fn in_program_space(addr: Address) -> bool {
    PROGRAM_START <= addr < 0x1000
}

/// An address operand that the legacy machine-language call accepts: one in
/// program space, or zero (the all-zero word that fills unused memory).
pub open spec fn legacy_call_target(addr: Address) -> bool {
    addr == 0 || in_program_space(addr)
}

pub open spec fn decode_class_0(raw: RawInstruction) -> Option<Instruction> {
    if raw.0 == 0x00 && raw.1 == 0xE0 {
        Some(Instruction::ClearScreen)
    } else if raw.0 == 0x00 && raw.1 == 0xEE {
        Some(Instruction::ReturnFromSubroutine)
    } else if legacy_call_target(address_of(raw)) {
        Some(Instruction::ExecSubroutineML(address_of(raw)))
    } else {
        None
    }
}

pub open spec fn decode_class_8(raw: RawInstruction) -> Option<Instruction> {
    let (x, y) = registers_of(raw);
    let sel = selector_of(raw);
    if sel == 0 {
        Some(Instruction::MoveValue(x, y))
    } else if sel == 1 {
        Some(Instruction::OrRegister(x, y))
    } else if sel == 2 {
        Some(Instruction::AndRegister(x, y))
    } else if sel == 3 {
        Some(Instruction::XorRegister(x, y))
    } else if sel == 4 {
        Some(Instruction::AddWithCarry(x, y))
    } else if sel == 5 {
        Some(Instruction::SubWithCarry(x, y))
    } else if sel == 6 {
        Some(Instruction::ShiftRight(x, y))
    } else if sel == 7 {
        Some(Instruction::SubWithCarry2(x, y))
    } else if sel == 0xE {
        Some(Instruction::ShiftLeft(x, y))
    } else {
        None
    }
}

pub open spec fn decode_class_e(raw: RawInstruction) -> Option<Instruction> {
    let x = registers_of(raw).0;
    if raw.1 == 0x9E {
        Some(Instruction::SkipIfKeyPressed(x))
    } else if raw.1 == 0xA1 {
        Some(Instruction::SkipIfKeyNotPressed(x))
    } else {
        None
    }
}

pub open spec fn decode_class_f(raw: RawInstruction) -> Option<Instruction> {
    let x = registers_of(raw).0;
    if raw.1 == 0x07 {
        Some(Instruction::ReadDelayTimer(x))
    } else if raw.1 == 0x0A {
        Some(Instruction::WaitForKey(x))
    } else if raw.1 == 0x15 {
        Some(Instruction::WriteDelayTimer(x))
    } else if raw.1 == 0x18 {
        Some(Instruction::WriteSoundTimer(x))
    } else if raw.1 == 0x1E {
        Some(Instruction::IncrementIWithReg(x))
    } else if raw.1 == 0x29 {
        Some(Instruction::GetSpriteDataAddress(x))
    } else if raw.1 == 0x33 {
        Some(Instruction::StoreBCD(x))
    } else if raw.1 == 0x55 {
        Some(Instruction::StoreRegisters(x))
    } else if raw.1 == 0x65 {
        Some(Instruction::FillRegisters(x))
    } else {
        None
    }
}

/// The instruction that a raw two-byte word stands for, or `None` where the
/// word is no instruction.
pub open spec fn decode_spec(raw: RawInstruction) -> Option<Instruction> {
    let class = class_of(raw);
    let (x, y) = registers_of(raw);
    let addr = address_of(raw);
    if class == 0x0 {
        decode_class_0(raw)
    } else if class == 0x1 {
        if in_program_space(addr) {
            Some(Instruction::JumpToAddress(addr))
        } else {
            None
        }
    } else if class == 0x2 {
        if in_program_space(addr) {
            Some(Instruction::ExecSubroutine(addr))
        } else {
            None
        }
    } else if class == 0x3 {
        Some(Instruction::SkipFollowingIfRegEq(x, raw.1))
    } else if class == 0x4 {
        Some(Instruction::SkipFollowingIfRegNeq(x, raw.1))
    } else if class == 0x5 {
        if selector_of(raw) == 0 {
            Some(Instruction::SkipFollowingIfRegEqReg(x, y))
        } else {
            None
        }
    } else if class == 0x6 {
        Some(Instruction::StoreToReg(x, raw.1))
    } else if class == 0x7 {
        Some(Instruction::AddToReg(x, raw.1))
    } else if class == 0x8 {
        decode_class_8(raw)
    } else if class == 0x9 {
        if selector_of(raw) == 0 {
            Some(Instruction::SkipIfNE(x, y))
        } else {
            None
        }
    } else if class == 0xA {
        if in_program_space(addr) {
            Some(Instruction::StoreAddressToI(addr))
        } else {
            None
        }
    } else if class == 0xB {
        if in_program_space(addr) {
            Some(Instruction::JumpWithOffset(addr))
        } else {
            None
        }
    } else if class == 0xC {
        Some(Instruction::RandWithMask(x, raw.1))
    } else if class == 0xD {
        Some(Instruction::DrawSprite(x, y, selector_of(raw)))
    } else if class == 0xE {
        decode_class_e(raw)
    } else {
        decode_class_f(raw)
    }
}

/// The result of a decoder that handles one class only: the instruction of
/// `raw` where `raw` belongs to `class`, and nothing otherwise.
pub open spec fn decode_in_class(class: u8, raw: RawInstruction) -> Option<Instruction> {
    if class_of(raw) == class {
        decode_spec(raw)
    } else {
        None
    }
}

/// The word of class `class` that carries the address operand `addr`.
pub open spec fn word_with_address(class: u8, addr: Address) -> RawInstruction {
    ((class * 16 + addr / 256) as u8, (addr % 256) as u8)
}

/// The word of class `class` that carries the register `x` and the byte `value`.
pub open spec fn word_with_value(class: u8, x: Register, value: u8) -> RawInstruction {
    ((class * 16 + x) as u8, value)
}

/// The word of class `class` that carries the registers `x` and `y` and the
/// nibble `low`.
pub open spec fn word_with_registers(class: u8, x: Register, y: Register, low: u8) -> RawInstruction {
    ((class * 16 + x) as u8, (y * 16 + low) as u8)
}

/// The bit pattern of each instruction.
pub open spec fn encoding(i: Instruction) -> RawInstruction {
    match i {
        Instruction::ExecSubroutineML(a) => word_with_address(0x0, a),
        Instruction::ClearScreen => (0x00u8, 0xE0u8),
        Instruction::ReturnFromSubroutine => (0x00u8, 0xEEu8),
        Instruction::JumpToAddress(a) => word_with_address(0x1, a),
        Instruction::ExecSubroutine(a) => word_with_address(0x2, a),
        Instruction::SkipFollowingIfRegEq(x, v) => word_with_value(0x3, x, v),
        Instruction::SkipFollowingIfRegNeq(x, v) => word_with_value(0x4, x, v),
        Instruction::SkipFollowingIfRegEqReg(x, y) => word_with_registers(0x5, x, y, 0x0),
        Instruction::StoreToReg(x, v) => word_with_value(0x6, x, v),
        Instruction::AddToReg(x, v) => word_with_value(0x7, x, v),
        Instruction::MoveValue(x, y) => word_with_registers(0x8, x, y, 0x0),
        Instruction::OrRegister(x, y) => word_with_registers(0x8, x, y, 0x1),
        Instruction::AndRegister(x, y) => word_with_registers(0x8, x, y, 0x2),
        Instruction::XorRegister(x, y) => word_with_registers(0x8, x, y, 0x3),
        Instruction::AddWithCarry(x, y) => word_with_registers(0x8, x, y, 0x4),
        Instruction::SubWithCarry(x, y) => word_with_registers(0x8, x, y, 0x5),
        Instruction::ShiftRight(x, y) => word_with_registers(0x8, x, y, 0x6),
        Instruction::SubWithCarry2(x, y) => word_with_registers(0x8, x, y, 0x7),
        Instruction::ShiftLeft(x, y) => word_with_registers(0x8, x, y, 0xE),
        Instruction::SkipIfNE(x, y) => word_with_registers(0x9, x, y, 0x0),
        Instruction::StoreAddressToI(a) => word_with_address(0xA, a),
        Instruction::JumpWithOffset(a) => word_with_address(0xB, a),
        Instruction::RandWithMask(x, v) => word_with_value(0xC, x, v),
        Instruction::DrawSprite(x, y, n) => word_with_registers(0xD, x, y, n),
        Instruction::SkipIfKeyPressed(x) => word_with_value(0xE, x, 0x9E),
        Instruction::SkipIfKeyNotPressed(x) => word_with_value(0xE, x, 0xA1),
        Instruction::ReadDelayTimer(x) => word_with_value(0xF, x, 0x07),
        Instruction::WaitForKey(x) => word_with_value(0xF, x, 0x0A),
        Instruction::WriteDelayTimer(x) => word_with_value(0xF, x, 0x15),
        Instruction::WriteSoundTimer(x) => word_with_value(0xF, x, 0x18),
        Instruction::IncrementIWithReg(x) => word_with_value(0xF, x, 0x1E),
        Instruction::GetSpriteDataAddress(x) => word_with_value(0xF, x, 0x29),
        Instruction::StoreBCD(x) => word_with_value(0xF, x, 0x33),
        Instruction::StoreRegisters(x) => word_with_value(0xF, x, 0x55),
        Instruction::FillRegisters(x) => word_with_value(0xF, x, 0x65),
    }
}

/// The instructions that have a bit pattern: those with operands in range
/// and, where they carry an address, one that their class accepts.
pub open spec fn encodable(i: Instruction) -> bool {
    &&& i.well_formed()
    &&& match i {
        Instruction::ExecSubroutineML(a) => legacy_call_target(a),
        Instruction::JumpToAddress(a) => in_program_space(a),
        Instruction::ExecSubroutine(a) => in_program_space(a),
        Instruction::StoreAddressToI(a) => in_program_space(a),
        Instruction::JumpWithOffset(a) => in_program_space(a),
        _ => true,
    }
}

/// Decoding the bit pattern of an instruction gives that instruction back,
/// with the operands it was built from.
pub proof fn lemma_decode_of_encoding(i: Instruction)
    requires
        encodable(i),
    ensures
        decode_spec(encoding(i)) == Some(i),
{
}

/// A word decodes to an instruction only if it is that instruction's bit
/// pattern: every other word is a decode failure.
pub proof fn lemma_encoding_of_decode(raw: RawInstruction)
    ensures
        decode_spec(raw) matches Some(i) ==> encodable(i) && encoding(i) == raw,
        decode_spec(raw) is None ==> forall|i: Instruction| encodable(i) ==> encoding(i) != raw,
{
    assert forall|i: Instruction| encodable(i) && encoding(i) == raw implies decode_spec(raw) == Some(i) by {
        lemma_decode_of_encoding(i);
    }
}

impl Instruction {
    /// Every operand is in the range that its encoding can hold: register
    /// numbers and sprite heights below 16, addresses below 0x1000.
    pub open spec fn well_formed(self) -> bool {
        match self {
            Instruction::ExecSubroutineML(a) => a < 0x1000,
            Instruction::ClearScreen => true,
            Instruction::ReturnFromSubroutine => true,
            Instruction::JumpToAddress(a) => a < 0x1000,
            Instruction::ExecSubroutine(a) => a < 0x1000,
            Instruction::SkipFollowingIfRegEq(x, _) => x < 16,
            Instruction::SkipFollowingIfRegNeq(x, _) => x < 16,
            Instruction::SkipFollowingIfRegEqReg(x, y) => x < 16 && y < 16,
            Instruction::StoreToReg(x, _) => x < 16,
            Instruction::AddToReg(x, _) => x < 16,
            Instruction::MoveValue(x, y) => x < 16 && y < 16,
            Instruction::OrRegister(x, y) => x < 16 && y < 16,
            Instruction::AndRegister(x, y) => x < 16 && y < 16,
            Instruction::XorRegister(x, y) => x < 16 && y < 16,
            Instruction::AddWithCarry(x, y) => x < 16 && y < 16,
            Instruction::SubWithCarry(x, y) => x < 16 && y < 16,
            Instruction::ShiftRight(x, y) => x < 16 && y < 16,
            Instruction::SubWithCarry2(x, y) => x < 16 && y < 16,
            Instruction::ShiftLeft(x, y) => x < 16 && y < 16,
            Instruction::SkipIfNE(x, y) => x < 16 && y < 16,
            Instruction::StoreAddressToI(a) => a < 0x1000,
            Instruction::JumpWithOffset(a) => a < 0x1000,
            Instruction::RandWithMask(x, _) => x < 16,
            Instruction::DrawSprite(x, y, n) => x < 16 && y < 16 && n < 16,
            Instruction::SkipIfKeyPressed(x) => x < 16,
            Instruction::SkipIfKeyNotPressed(x) => x < 16,
            Instruction::ReadDelayTimer(x) => x < 16,
            Instruction::WaitForKey(x) => x < 16,
            Instruction::WriteDelayTimer(x) => x < 16,
            Instruction::WriteSoundTimer(x) => x < 16,
            Instruction::IncrementIWithReg(x) => x < 16,
            Instruction::GetSpriteDataAddress(x) => x < 16,
            Instruction::StoreBCD(x) => x < 16,
            Instruction::StoreRegisters(x) => x < 16,
            Instruction::FillRegisters(x) => x < 16,
        }
    }

    /// Decodes a raw two-byte word.
    pub fn decode(instruction: RawInstruction) -> (result: Option<Self>)
        ensures
            result == decode_spec(instruction),
            result matches Some(i) ==> i.well_formed(),
    {
        let class = Self::get_instruction_class(instruction.0);
        if class == 0 {
            Self::decode_0_class_instruction(instruction)
        } else if class == 1 {
            Self::decode_1_class_instruction(instruction)
        } else if class == 2 {
            Self::decode_2_class_instruction(instruction)
        } else if class == 3 {
            Self::decode_3_class_instruction(instruction)
        } else if class == 4 {
            Self::decode_4_class_instruction(instruction)
        } else if class == 5 {
            Self::decode_5_class_instruction(instruction)
        } else if class == 6 {
            Self::decode_6_class_instruction(instruction)
        } else if class == 7 {
            Self::decode_7_class_instruction(instruction)
        } else if class == 8 {
            Self::decode_8_class_instruction(instruction)
        } else if class == 9 {
            Self::decode_9_class_instruction(instruction)
        } else if class == 0xA {
            Self::decode_a_class_instruction(instruction)
        } else if class == 0xB {
            Self::decode_b_class_instruction(instruction)
        } else if class == 0xC {
            Self::decode_c_class_instruction(instruction)
        } else if class == 0xD {
            Self::decode_d_class_instruction(instruction)
        } else if class == 0xE {
            Self::decode_e_class_instruction(instruction)
        } else {
            Self::decode_f_class_instruction(instruction)
        }
    }

    /// The opcode class of an instruction's first byte.
    pub fn get_instruction_class(upper_byte: u8) -> (class: u8)
        ensures
            class == upper_byte / 16,
            class < 16,
    {
        upper_byte / 16
    }

    pub fn get_address(instruction: RawInstruction) -> (addr: Address)
        ensures
            addr == address_of(instruction),
            addr < 0x1000,
    {
        let high: u16 = (instruction.0 % 16) as u16;
        let low: u16 = instruction.1 as u16;
        high * 256 + low
    }

    pub fn get_registers(instruction: RawInstruction) -> (regs: (Register, Register))
        ensures
            regs == registers_of(instruction),
            regs.0 < 16,
            regs.1 < 16,
    {
        (instruction.0 % 16, instruction.1 / 16)
    }

    pub fn decode_0_class_instruction(instruction: RawInstruction) -> (result: Option<Instruction>)
        ensures
            result == decode_in_class(0x0, instruction),
    {
        if instruction.0 == 0x00 && instruction.1 == 0xE0 {
            Some(Instruction::ClearScreen)
        } else if instruction.0 == 0x00 && instruction.1 == 0xEE {
            Some(Instruction::ReturnFromSubroutine)
        } else if instruction.0 == 0x00 && instruction.1 == 0x00 {
            Some(Instruction::ExecSubroutineML(0))
        } else if 0x02 <= instruction.0 && instruction.0 <= 0x0f {
            Some(Instruction::ExecSubroutineML(Instruction::get_address(instruction)))
        } else {
            None
        }
    }

    pub fn decode_1_class_instruction(instruction: RawInstruction) -> (result: Option<Instruction>)
        ensures
            result == decode_in_class(0x1, instruction),
    {
        if 0x12 <= instruction.0 && instruction.0 <= 0x1f {
            Some(Instruction::JumpToAddress(Instruction::get_address(instruction)))
        } else {
            None
        }
    }

    pub fn decode_2_class_instruction(instruction: RawInstruction) -> (result: Option<Instruction>)
        ensures
            result == decode_in_class(0x2, instruction),
    {
        if 0x22 <= instruction.0 && instruction.0 <= 0x2f {
            Some(Instruction::ExecSubroutine(Instruction::get_address(instruction)))
        } else {
            None
        }
    }

    pub fn decode_3_class_instruction(instruction: RawInstruction) -> (result: Option<Instruction>)
        ensures
            result == decode_in_class(0x3, instruction),
    {
        if 0x30 <= instruction.0 && instruction.0 <= 0x3f {
            Some(Instruction::SkipFollowingIfRegEq(Instruction::get_registers(instruction).0, instruction.1))
        } else {
            None
        }
    }

    pub fn decode_4_class_instruction(instruction: RawInstruction) -> (result: Option<Instruction>)
        ensures
            result == decode_in_class(0x4, instruction),
    {
        if 0x40 <= instruction.0 && instruction.0 <= 0x4f {
            Some(Instruction::SkipFollowingIfRegNeq(Instruction::get_registers(instruction).0, instruction.1))
        } else {
            None
        }
    }

    pub fn decode_5_class_instruction(instruction: RawInstruction) -> (result: Option<Instruction>)
        ensures
            result == decode_in_class(0x5, instruction),
    {
        let registers = Instruction::get_registers(instruction);
        if 0x50 <= instruction.0 && instruction.0 <= 0x5f && instruction.1 % 16 == 0 {
            Some(Instruction::SkipFollowingIfRegEqReg(registers.0, registers.1))
        } else {
            None
        }
    }

    pub fn decode_6_class_instruction(instruction: RawInstruction) -> (result: Option<Instruction>)
        ensures
            result == decode_in_class(0x6, instruction),
    {
        if 0x60 <= instruction.0 && instruction.0 <= 0x6f {
            Some(Instruction::StoreToReg(Instruction::get_registers(instruction).0, instruction.1))
        } else {
            None
        }
    }

    pub fn decode_7_class_instruction(instruction: RawInstruction) -> (result: Option<Instruction>)
        ensures
            result == decode_in_class(0x7, instruction),
    {
        if 0x70 <= instruction.0 && instruction.0 <= 0x7f {
            Some(Instruction::AddToReg(Instruction::get_registers(instruction).0, instruction.1))
        } else {
            None
        }
    }

    pub fn decode_8_class_instruction(instruction: RawInstruction) -> (result: Option<Instruction>)
        ensures
            result == decode_in_class(0x8, instruction),
    {
        let registers = Instruction::get_registers(instruction);
        if 0x80 <= instruction.0 && instruction.0 <= 0x8f {
            let selector: u8 = instruction.1 % 16;
            if selector == 0 {
                Some(Instruction::MoveValue(registers.0, registers.1))
            } else if selector == 1 {
                Some(Instruction::OrRegister(registers.0, registers.1))
            } else if selector == 2 {
                Some(Instruction::AndRegister(registers.0, registers.1))
            } else if selector == 3 {
                Some(Instruction::XorRegister(registers.0, registers.1))
            } else if selector == 4 {
                Some(Instruction::AddWithCarry(registers.0, registers.1))
            } else if selector == 5 {
                Some(Instruction::SubWithCarry(registers.0, registers.1))
            } else if selector == 6 {
                Some(Instruction::ShiftRight(registers.0, registers.1))
            } else if selector == 7 {
                Some(Instruction::SubWithCarry2(registers.0, registers.1))
            } else if selector == 0xE {
                Some(Instruction::ShiftLeft(registers.0, registers.1))
            } else {
                None
            }
        } else {
            None
        }
    }

    pub fn decode_9_class_instruction(instruction: RawInstruction) -> (result: Option<Instruction>)
        ensures
            result == decode_in_class(0x9, instruction),
    {
        if 0x90 <= instruction.0 && instruction.0 <= 0x9f {
            if instruction.1 % 16 == 0 {
                let reg = Instruction::get_registers(instruction);
                Some(Instruction::SkipIfNE(reg.0, reg.1))
            } else {
                None
            }
        } else {
            None
        }
    }

    pub fn decode_a_class_instruction(instruction: RawInstruction) -> (result: Option<Instruction>)
        ensures
            result == decode_in_class(0xA, instruction),
    {
        if 0xA2 <= instruction.0 && instruction.0 <= 0xAF {
            Some(Instruction::StoreAddressToI(Instruction::get_address(instruction)))
        } else {
            None
        }
    }

    pub fn decode_b_class_instruction(instruction: RawInstruction) -> (result: Option<Instruction>)
        ensures
            result == decode_in_class(0xB, instruction),
    {
        if 0xB2 <= instruction.0 && instruction.0 <= 0xBF {
            Some(Instruction::JumpWithOffset(Instruction::get_address(instruction)))
        } else {
            None
        }
    }

    pub fn decode_c_class_instruction(instruction: RawInstruction) -> (result: Option<Instruction>)
        ensures
            result == decode_in_class(0xC, instruction),
    {
        if 0xC0 <= instruction.0 && instruction.0 <= 0xCF {
            Some(Instruction::RandWithMask(Instruction::get_registers(instruction).0, instruction.1))
        } else {
            None
        }
    }

    pub fn decode_d_class_instruction(instruction: RawInstruction) -> (result: Option<Instruction>)
        ensures
            result == decode_in_class(0xD, instruction),
    {
        if 0xD0 <= instruction.0 && instruction.0 <= 0xDF {
            let regs = Instruction::get_registers(instruction);
            Some(Instruction::DrawSprite(regs.0, regs.1, instruction.1 % 16))
        } else {
            None
        }
    }

    pub fn decode_e_class_instruction(instruction: RawInstruction) -> (result: Option<Instruction>)
        ensures
            result == decode_in_class(0xE, instruction),
    {
        if 0xE0 <= instruction.0 && instruction.0 <= 0xEF {
            let reg = Instruction::get_registers(instruction).0;
            if instruction.1 == 0x9E {
                Some(Instruction::SkipIfKeyPressed(reg))
            } else if instruction.1 == 0xA1 {
                Some(Instruction::SkipIfKeyNotPressed(reg))
            } else {
                None
            }
        } else {
            None
        }
    }

    pub fn decode_f_class_instruction(instruction: RawInstruction) -> (result: Option<Instruction>)
        ensures
            result == decode_in_class(0xF, instruction),
    {
        if 0xF0 <= instruction.0 {
            let reg = Instruction::get_registers(instruction).0;
            if instruction.1 == 0x07 {
                Some(Instruction::ReadDelayTimer(reg))
            } else if instruction.1 == 0x0A {
                Some(Instruction::WaitForKey(reg))
            } else if instruction.1 == 0x15 {
                Some(Instruction::WriteDelayTimer(reg))
            } else if instruction.1 == 0x18 {
                Some(Instruction::WriteSoundTimer(reg))
            } else if instruction.1 == 0x1E {
                Some(Instruction::IncrementIWithReg(reg))
            } else if instruction.1 == 0x29 {
                Some(Instruction::GetSpriteDataAddress(reg))
            } else if instruction.1 == 0x33 {
                Some(Instruction::StoreBCD(reg))
            } else if instruction.1 == 0x55 {
                Some(Instruction::StoreRegisters(reg))
            } else if instruction.1 == 0x65 {
                Some(Instruction::FillRegisters(reg))
            } else {
                None
            }
        } else {
            None
        }
    }
}

} // verus!
