//! Instruction words: their operand fields, the operation each one selects,
//! and the time each operation took on the COSMAC VIP.

use vstd::prelude::*;

verus! {

/// The leading nibble of an instruction word, which selects its family.
pub open spec fn lead_of(opcode: u16) -> int {
    opcode as int / 4096
}

/// The `X` field: the register index in the second nibble.
pub open spec fn x_of(opcode: u16) -> int {
    (opcode as int / 256) % 16
}

/// The `Y` field: the register index in the third nibble.
pub open spec fn y_of(opcode: u16) -> int {
    (opcode as int / 16) % 16
}

/// The `N` field: the last nibble.
pub open spec fn n_of(opcode: u16) -> int {
    opcode as int % 16
}

/// The `NN` field: the low byte.
pub open spec fn nn_of(opcode: u16) -> int {
    opcode as int % 256
}

/// The `NNN` field: the low twelve bits, an address.
pub open spec fn nnn_of(opcode: u16) -> int {
    opcode as int % 4096
}

/// The instruction word whose first byte is `high` and whose second is `low`.
pub open spec fn word_of(high: u8, low: u8) -> int {
    high as int * 256 + low as int
}

pub fn lead(opcode: u16) -> (r: u8)
    ensures
        r as int == lead_of(opcode),
        r < 16,
{
    assert(opcode >> 12 == opcode / 4096) by (bit_vector);
    (opcode >> 12) as u8
}

pub fn x_field(opcode: u16) -> (r: u8)
    ensures
        r as int == x_of(opcode),
        r < 16,
{
    assert((opcode >> 8) & 0x000F == (opcode / 256) % 16) by (bit_vector);
    ((opcode >> 8) & 0x000F) as u8
}

pub fn y_field(opcode: u16) -> (r: u8)
    ensures
        r as int == y_of(opcode),
        r < 16,
{
    assert((opcode >> 4) & 0x000F == (opcode / 16) % 16) by (bit_vector);
    ((opcode >> 4) & 0x000F) as u8
}

pub fn n_field(opcode: u16) -> (r: u8)
    ensures
        r as int == n_of(opcode),
        r < 16,
{
    assert(opcode & 0x000F == opcode % 16) by (bit_vector);
    (opcode & 0x000F) as u8
}

pub fn nn_field(opcode: u16) -> (r: u8)
    ensures
        r as int == nn_of(opcode),
{
    assert(opcode & 0x00FF == opcode % 256) by (bit_vector);
    (opcode & 0x00FF) as u8
}

pub fn nnn_field(opcode: u16) -> (r: u16)
    ensures
        r as int == nnn_of(opcode),
        r < 4096,
{
    assert(opcode & 0x0FFF == opcode % 4096) by (bit_vector);
    opcode & 0x0FFF
}

/// Joins the two bytes of an instruction, the first one most significant.
pub fn word(high: u8, low: u8) -> (r: u16)
    ensures
        r as int == word_of(high, low),
{
    assert(((high as u16) << 8) | (low as u16) == (high as u16) * 256 + (low as u16))
        by (bit_vector);
    ((high as u16) << 8) | (low as u16)
}

/// What an instruction word asks the machine to do. The operands stay in the
/// word; this names the operation only.
#[derive(Clone, Copy, Debug, PartialEq, Eq, Structural)]
pub enum Operation {
    /// `00E0`
    ClearScreen,
    /// `00EE`
    Return,
    /// `1NNN`
    Jump,
    /// `2NNN`
    Call,
    /// `3XNN`
    SkipIfEqual,
    /// `4XNN`
    SkipIfNotEqual,
    /// `5XY0`
    SkipIfRegistersEqual,
    /// `6XNN`
    LoadImmediate,
    /// `7XNN`
    AddImmediate,
    /// `8XY0`
    CopyRegister,
    /// `8XY1`
    Or,
    /// `8XY2`
    And,
    /// `8XY3`
    Xor,
    /// `8XY4`
    AddRegister,
    /// `8XY5`
    Subtract,
    /// `8XY6`
    ShiftRight,
    /// `8XY7`
    SubtractReversed,
    /// `8XYE`
    ShiftLeft,
    /// `9XY0`
    SkipIfRegistersDiffer,
    /// `ANNN`
    LoadIndex,
    /// `BNNN`
    JumpWithOffset,
    /// `CXNN`
    Random,
    /// `DXYN`
    Draw,
    /// `EX9E`
    SkipIfKeyDown,
    /// `EXA1`
    SkipIfKeyUp,
    /// `FX07`
    ReadDelay,
    /// `FX0A`
    WaitForKey,
    /// `FX15`
    SetDelay,
    /// `FX18`
    SetSound,
    /// `FX1E`
    AddToIndex,
    /// `FX29`
    FontAddress,
    /// `FX33`
    StoreDecimal,
    /// `FX55`
    StoreRegisters,
    /// `FX65`
    LoadRegisters,
    /// Any other word. It is not an error: the machine does nothing and
    /// charges the default latency.
    Unknown,
}

/// The operation in the `8XY_` family that the last nibble selects.
pub open spec fn decode_arithmetic(n: int) -> Operation {
    if n == 0x0 {
        Operation::CopyRegister
    } else if n == 0x1 {
        Operation::Or
    } else if n == 0x2 {
        Operation::And
    } else if n == 0x3 {
        Operation::Xor
    } else if n == 0x4 {
        Operation::AddRegister
    } else if n == 0x5 {
        Operation::Subtract
    } else if n == 0x6 {
        Operation::ShiftRight
    } else if n == 0x7 {
        Operation::SubtractReversed
    } else if n == 0xE {
        Operation::ShiftLeft
    } else {
        Operation::Unknown
    }
}

/// The operation in the `FX__` family that the low byte selects.
pub open spec fn decode_misc(nn: int) -> Operation {
    if nn == 0x07 {
        Operation::ReadDelay
    } else if nn == 0x0A {
        Operation::WaitForKey
    } else if nn == 0x15 {
        Operation::SetDelay
    } else if nn == 0x18 {
        Operation::SetSound
    } else if nn == 0x1E {
        Operation::AddToIndex
    } else if nn == 0x29 {
        Operation::FontAddress
    } else if nn == 0x33 {
        Operation::StoreDecimal
    } else if nn == 0x55 {
        Operation::StoreRegisters
    } else if nn == 0x65 {
        Operation::LoadRegisters
    } else {
        Operation::Unknown
    }
}

/// The operation that an instruction word selects. The two whole-word
/// instructions are matched first; every other word goes by its leading
/// nibble, and in the `8`, `E` and `F` families by its last nibble or byte.
pub open spec fn decode_of(opcode: u16) -> Operation {
    let lead = lead_of(opcode);
    if opcode == 0x00E0 {
        Operation::ClearScreen
    } else if opcode == 0x00EE {
        Operation::Return
    } else if lead == 0x1 {
        Operation::Jump
    } else if lead == 0x2 {
        Operation::Call
    } else if lead == 0x3 {
        Operation::SkipIfEqual
    } else if lead == 0x4 {
        Operation::SkipIfNotEqual
    } else if lead == 0x5 {
        Operation::SkipIfRegistersEqual
    } else if lead == 0x6 {
        Operation::LoadImmediate
    } else if lead == 0x7 {
        Operation::AddImmediate
    } else if lead == 0x8 {
        decode_arithmetic(n_of(opcode))
    } else if lead == 0x9 {
        Operation::SkipIfRegistersDiffer
    } else if lead == 0xA {
        Operation::LoadIndex
    } else if lead == 0xB {
        Operation::JumpWithOffset
    } else if lead == 0xC {
        Operation::Random
    } else if lead == 0xD {
        Operation::Draw
    } else if lead == 0xE {
        if nn_of(opcode) == 0x9E {
            Operation::SkipIfKeyDown
        } else if nn_of(opcode) == 0xA1 {
            Operation::SkipIfKeyUp
        } else {
            Operation::Unknown
        }
    } else if lead == 0xF {
        decode_misc(nn_of(opcode))
    } else {
        Operation::Unknown
    }
}

/// The latency charged for a word that selects no operation.
pub const DEFAULT_LATENCY_MICROS: u64 = 2000;

/// Microseconds that an operation took on the COSMAC VIP.
pub open spec fn latency_of(operation: Operation) -> u64 {
    match operation {
        Operation::ClearScreen => 109,
        Operation::Return => 105,
        Operation::Jump => 105,
        Operation::Call => 105,
        Operation::SkipIfEqual => 55,
        Operation::SkipIfNotEqual => 55,
        Operation::SkipIfRegistersEqual => 73,
        Operation::LoadImmediate => 27,
        Operation::AddImmediate => 45,
        Operation::CopyRegister => 200,
        Operation::Or => 200,
        Operation::And => 200,
        Operation::Xor => 200,
        Operation::AddRegister => 200,
        Operation::Subtract => 200,
        Operation::ShiftRight => 200,
        Operation::SubtractReversed => 200,
        Operation::ShiftLeft => 200,
        Operation::SkipIfRegistersDiffer => 73,
        Operation::LoadIndex => 55,
        Operation::JumpWithOffset => 105,
        Operation::Random => 164,
        Operation::Draw => 22734,
        Operation::SkipIfKeyDown => 73,
        Operation::SkipIfKeyUp => 73,
        Operation::ReadDelay => 45,
        Operation::WaitForKey => 0,
        Operation::SetDelay => 45,
        Operation::SetSound => 45,
        Operation::AddToIndex => 86,
        Operation::FontAddress => 91,
        Operation::StoreDecimal => 927,
        Operation::StoreRegisters => 605,
        Operation::LoadRegisters => 605,
        Operation::Unknown => DEFAULT_LATENCY_MICROS,
    }
}

fn decode_arithmetic_family(n: u8) -> (r: Operation)
    ensures
        r == decode_arithmetic(n as int),
{
    match n {
        0x0 => Operation::CopyRegister,
        0x1 => Operation::Or,
        0x2 => Operation::And,
        0x3 => Operation::Xor,
        0x4 => Operation::AddRegister,
        0x5 => Operation::Subtract,
        0x6 => Operation::ShiftRight,
        0x7 => Operation::SubtractReversed,
        0xE => Operation::ShiftLeft,
        _ => Operation::Unknown,
    }
}

fn decode_misc_family(nn: u8) -> (r: Operation)
    ensures
        r == decode_misc(nn as int),
{
    match nn {
        0x07 => Operation::ReadDelay,
        0x0A => Operation::WaitForKey,
        0x15 => Operation::SetDelay,
        0x18 => Operation::SetSound,
        0x1E => Operation::AddToIndex,
        0x29 => Operation::FontAddress,
        0x33 => Operation::StoreDecimal,
        0x55 => Operation::StoreRegisters,
        0x65 => Operation::LoadRegisters,
        _ => Operation::Unknown,
    }
}

/// Decodes an instruction word.
pub fn decode(opcode: u16) -> (r: Operation)
    ensures
        r == decode_of(opcode),
{
    if opcode == 0x00E0 {
        return Operation::ClearScreen;
    }
    if opcode == 0x00EE {
        return Operation::Return;
    }
    match lead(opcode) {
        0x1 => Operation::Jump,
        0x2 => Operation::Call,
        0x3 => Operation::SkipIfEqual,
        0x4 => Operation::SkipIfNotEqual,
        0x5 => Operation::SkipIfRegistersEqual,
        0x6 => Operation::LoadImmediate,
        0x7 => Operation::AddImmediate,
        0x8 => decode_arithmetic_family(n_field(opcode)),
        0x9 => Operation::SkipIfRegistersDiffer,
        0xA => Operation::LoadIndex,
        0xB => Operation::JumpWithOffset,
        0xC => Operation::Random,
        0xD => Operation::Draw,
        0xE => {
            let nn: u8 = nn_field(opcode);
            if nn == 0x9E {
                Operation::SkipIfKeyDown
            } else if nn == 0xA1 {
                Operation::SkipIfKeyUp
            } else {
                Operation::Unknown
            }
        },
        0xF => decode_misc_family(nn_field(opcode)),
        _ => Operation::Unknown,
    }
}

impl Operation {
    /// Microseconds that this operation took on the COSMAC VIP.
    pub fn latency_micros(self) -> (r: u64)
        ensures
            r == latency_of(self),
    {
        match self {
            Operation::ClearScreen => 109,
            Operation::Return => 105,
            Operation::Jump => 105,
            Operation::Call => 105,
            Operation::SkipIfEqual => 55,
            Operation::SkipIfNotEqual => 55,
            Operation::SkipIfRegistersEqual => 73,
            Operation::LoadImmediate => 27,
            Operation::AddImmediate => 45,
            Operation::CopyRegister => 200,
            Operation::Or => 200,
            Operation::And => 200,
            Operation::Xor => 200,
            Operation::AddRegister => 200,
            Operation::Subtract => 200,
            Operation::ShiftRight => 200,
            Operation::SubtractReversed => 200,
            Operation::ShiftLeft => 200,
            Operation::SkipIfRegistersDiffer => 73,
            Operation::LoadIndex => 55,
            Operation::JumpWithOffset => 105,
            Operation::Random => 164,
            Operation::Draw => 22734,
            Operation::SkipIfKeyDown => 73,
            Operation::SkipIfKeyUp => 73,
            Operation::ReadDelay => 45,
            Operation::WaitForKey => 0,
            Operation::SetDelay => 45,
            Operation::SetSound => 45,
            Operation::AddToIndex => 86,
            Operation::FontAddress => 91,
            Operation::StoreDecimal => 927,
            Operation::StoreRegisters => 605,
            Operation::LoadRegisters => 605,
            Operation::Unknown => DEFAULT_LATENCY_MICROS,
        }
    }
}

} // verus!
