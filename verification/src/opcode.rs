//! Instruction words: their operand fields and the table that tells which
//! instruction a word encodes.
//!
//! A word is written as four hexadecimal digits. In a pattern, `x` and `y`
//! stand for register numbers, `n` for a 4-bit count, `kk` for the low byte and
//! `nnn` for the low 12 bits.

use vstd::prelude::*;

verus! {

/// The instructions of the machine, each with the pattern of its word.
///
/// Operands are not part of the value: they are read from the word with
/// [`x_of`], [`y_of`], [`n_of`], [`kk_of`] and [`nnn_of`].
#[derive(Clone, Copy, Debug, PartialEq, Eq, Structural)]
pub enum Instruction {
    /// `00E0`
    ClearScreen,
    /// `00EE`
    Return,
    /// `1nnn`
    Jump,
    /// `2nnn`
    Call,
    /// `3xkk`
    SkipIfEqual,
    /// `4xkk`
    SkipIfNotEqual,
    /// `5xy0`
    SkipIfRegistersEqual,
    /// `6xkk`
    Load,
    /// `7xkk`
    Add,
    /// `8xy0`
    Copy,
    /// `8xy1`
    Or,
    /// `8xy2`
    And,
    /// `8xy3`
    Xor,
    /// `8xy4`
    AddRegister,
    /// `8xy5`
    Subtract,
    /// `8xy6`
    ShiftRight,
    /// `8xy7`
    SubtractFrom,
    /// `8xyE`
    ShiftLeft,
    /// `9xy0`
    SkipIfRegistersNotEqual,
    /// `Annn`
    LoadIndex,
    /// `Bnnn`
    JumpOffset,
    /// `Cxkk`
    Random,
    /// `Dxyn`
    Draw,
    /// `Ex9E`
    SkipIfKey,
    /// `ExA1`
    SkipIfNotKey,
    /// `Fx07`
    ReadDelay,
    /// `Fx0A`
    WaitKey,
    /// `Fx15`
    SetDelay,
    /// `Fx18`
    SetSound,
    /// `Fx1E`
    AddIndex,
    /// `Fx29`
    Glyph,
    /// `Fx33`
    StoreDecimal,
    /// `Fx55`
    StoreRegisters,
    /// `Fx65`
    LoadRegisters,
}

/// The first (most significant) digit of the word: the instruction family.
#[verifier::allow_in_spec]
pub fn family_of(opcode: u16) -> u8
    returns
        (opcode / 0x1000) as u8,
{
    let digit: u16 = opcode >> 12;
    assert(opcode >> 12 == opcode / 0x1000) by (bit_vector);
    digit as u8
}

/// The second digit: the number of register `Vx`.
#[verifier::allow_in_spec]
pub fn x_of(opcode: u16) -> usize
    returns
        ((opcode / 0x100) % 0x10) as usize,
{
    let digit: u16 = (opcode >> 8) & 0x000F;
    assert((opcode >> 8) & 0x000F == (opcode / 0x100) % 0x10) by (bit_vector);
    digit as usize
}

/// The third digit: the number of register `Vy`.
#[verifier::allow_in_spec]
pub fn y_of(opcode: u16) -> usize
    returns
        ((opcode / 0x10) % 0x10) as usize,
{
    let digit: u16 = (opcode >> 4) & 0x000F;
    assert((opcode >> 4) & 0x000F == (opcode / 0x10) % 0x10) by (bit_vector);
    digit as usize
}

/// The fourth (least significant) digit.
#[verifier::allow_in_spec]
pub fn n_of(opcode: u16) -> usize
    returns
        (opcode % 0x10) as usize,
{
    let digit: u16 = opcode & 0x000F;
    assert(opcode & 0x000F == opcode % 0x10) by (bit_vector);
    digit as usize
}

/// The low byte of the word.
#[verifier::allow_in_spec]
pub fn kk_of(opcode: u16) -> u8
    returns
        (opcode % 0x100) as u8,
{
    let byte: u16 = opcode & 0x00FF;
    assert(opcode & 0x00FF == opcode % 0x100) by (bit_vector);
    byte as u8
}

/// The low 12 bits of the word: an address.
#[verifier::allow_in_spec]
pub fn nnn_of(opcode: u16) -> u16
    returns
        (opcode % 0x1000) as u16,
{
    let addr: u16 = opcode & 0x0FFF;
    assert(opcode & 0x0FFF == opcode % 0x1000) by (bit_vector);
    addr
}

/// The word whose high byte is `high` and whose low byte is `low`.
#[verifier::allow_in_spec]
pub fn word_of(high: u8, low: u8) -> u16
    returns
        (high * 0x100 + low) as u16,
{
    let word: u16 = ((high as u16) << 8) | (low as u16);
    assert(((high as u16) << 8) | (low as u16) == high * 0x100 + low) by (bit_vector);
    word
}

/// The decoding table: the instruction that `opcode` encodes, or `None` where
/// it matches no pattern.
///
/// The first digit selects the family. Only the families `0`, `8`, `E` and `F`
/// look at further digits: in family `0` the whole word must match, family `8`
/// is told apart by the last digit, families `E` and `F` by the low byte. In
/// every other family all words are instructions, whatever their last digit.
pub open spec fn instruction_of(opcode: u16) -> Option<Instruction> {
    match family_of(opcode) {
        0x0 => if opcode == 0x00E0 {
            Some(Instruction::ClearScreen)
        } else if opcode == 0x00EE {
            Some(Instruction::Return)
        } else {
            None
        },
        0x1 => Some(Instruction::Jump),
        0x2 => Some(Instruction::Call),
        0x3 => Some(Instruction::SkipIfEqual),
        0x4 => Some(Instruction::SkipIfNotEqual),
        0x5 => Some(Instruction::SkipIfRegistersEqual),
        0x6 => Some(Instruction::Load),
        0x7 => Some(Instruction::Add),
        0x8 => match n_of(opcode) {
            0x0 => Some(Instruction::Copy),
            0x1 => Some(Instruction::Or),
            0x2 => Some(Instruction::And),
            0x3 => Some(Instruction::Xor),
            0x4 => Some(Instruction::AddRegister),
            0x5 => Some(Instruction::Subtract),
            0x6 => Some(Instruction::ShiftRight),
            0x7 => Some(Instruction::SubtractFrom),
            0xE => Some(Instruction::ShiftLeft),
            _ => None,
        },
        0x9 => Some(Instruction::SkipIfRegistersNotEqual),
        0xA => Some(Instruction::LoadIndex),
        0xB => Some(Instruction::JumpOffset),
        0xC => Some(Instruction::Random),
        0xD => Some(Instruction::Draw),
        0xE => match kk_of(opcode) {
            0x9E => Some(Instruction::SkipIfKey),
            0xA1 => Some(Instruction::SkipIfNotKey),
            _ => None,
        },
        0xF => match kk_of(opcode) {
            0x07 => Some(Instruction::ReadDelay),
            0x0A => Some(Instruction::WaitKey),
            0x15 => Some(Instruction::SetDelay),
            0x18 => Some(Instruction::SetSound),
            0x1E => Some(Instruction::AddIndex),
            0x29 => Some(Instruction::Glyph),
            0x33 => Some(Instruction::StoreDecimal),
            0x55 => Some(Instruction::StoreRegisters),
            0x65 => Some(Instruction::LoadRegisters),
            _ => None,
        },
        _ => None,
    }
}

/// Decodes an instruction word.
pub fn decode(opcode: u16) -> (instruction: Option<Instruction>)
    ensures
        instruction == instruction_of(opcode),
{
    match family_of(opcode) {
        0x0 => if opcode == 0x00E0 {
            Some(Instruction::ClearScreen)
        } else if opcode == 0x00EE {
            Some(Instruction::Return)
        } else {
            None
        },
        0x1 => Some(Instruction::Jump),
        0x2 => Some(Instruction::Call),
        0x3 => Some(Instruction::SkipIfEqual),
        0x4 => Some(Instruction::SkipIfNotEqual),
        0x5 => Some(Instruction::SkipIfRegistersEqual),
        0x6 => Some(Instruction::Load),
        0x7 => Some(Instruction::Add),
        0x8 => match n_of(opcode) {
            0x0 => Some(Instruction::Copy),
            0x1 => Some(Instruction::Or),
            0x2 => Some(Instruction::And),
            0x3 => Some(Instruction::Xor),
            0x4 => Some(Instruction::AddRegister),
            0x5 => Some(Instruction::Subtract),
            0x6 => Some(Instruction::ShiftRight),
            0x7 => Some(Instruction::SubtractFrom),
            0xE => Some(Instruction::ShiftLeft),
            _ => None,
        },
        0x9 => Some(Instruction::SkipIfRegistersNotEqual),
        0xA => Some(Instruction::LoadIndex),
        0xB => Some(Instruction::JumpOffset),
        0xC => Some(Instruction::Random),
        0xD => Some(Instruction::Draw),
        0xE => match kk_of(opcode) {
            0x9E => Some(Instruction::SkipIfKey),
            0xA1 => Some(Instruction::SkipIfNotKey),
            _ => None,
        },
        0xF => match kk_of(opcode) {
            0x07 => Some(Instruction::ReadDelay),
            0x0A => Some(Instruction::WaitKey),
            0x15 => Some(Instruction::SetDelay),
            0x18 => Some(Instruction::SetSound),
            0x1E => Some(Instruction::AddIndex),
            0x29 => Some(Instruction::Glyph),
            0x33 => Some(Instruction::StoreDecimal),
            0x55 => Some(Instruction::StoreRegisters),
            0x65 => Some(Instruction::LoadRegisters),
            _ => None,
        },
        _ => None,
    }
}

} // verus!
