//! The instruction set: the 16-bit instruction words of the machine and the
//! instructions they stand for.
//!
//! An instruction word is read as four nibbles. The top nibble selects the
//! family; the others give a register number `X` (second nibble), a register
//! number `Y` (third nibble), a short constant `N` (low nibble), a byte
//! constant `NN` (low byte) or an address `NNN` (low twelve bits).
//!
//! Decoding is strict: a word stands for an instruction only if it has
//! exactly the form that the table of the instruction set gives, so `5XY1`
//! is no instruction although `5XY0` is one. The one word that the table
//! does not name and that is accepted is `0000`, which does nothing.

use vstd::prelude::*;

verus! {

/// One instruction of the machine, with its operands taken apart.
#[derive(Clone, Copy, Debug, PartialEq, Eq, Structural)]
pub enum Instruction {
    /// `0000`: does nothing.
    NoOperation,
    /// `00E0`: switches every pixel off.
    ClearScreen,
    /// `00EE`: returns from a subroutine.
    Return,
    /// `1NNN`: jumps to `NNN`.
    Jump { address: u16 },
    /// `2NNN`: calls the subroutine at `NNN`.
    Call { address: u16 },
    /// `3XNN`: skips the next instruction if `VX == NN`.
    SkipIfEqual { x: u8, value: u8 },
    /// `4XNN`: skips the next instruction if `VX != NN`.
    SkipIfNotEqual { x: u8, value: u8 },
    /// `5XY0`: skips the next instruction if `VX == VY`.
    SkipIfRegistersEqual { x: u8, y: u8 },
    /// `6XNN`: sets `VX` to `NN`.
    LoadImmediate { x: u8, value: u8 },
    /// `7XNN`: adds `NN` to `VX`, without a carry flag.
    AddImmediate { x: u8, value: u8 },
    /// `8XY0`: sets `VX` to `VY`.
    Copy { x: u8, y: u8 },
    /// `8XY1`: sets `VX` to `VX | VY`.
    Or { x: u8, y: u8 },
    /// `8XY2`: sets `VX` to `VX & VY`.
    And { x: u8, y: u8 },
    /// `8XY3`: sets `VX` to `VX ^ VY`.
    Xor { x: u8, y: u8 },
    /// `8XY4`: adds `VY` to `VX`; the flag is 1 if the sum was carried, else 0.
    Add { x: u8, y: u8 },
    /// `8XY5`: sets `VX` to `VX - VY`; the flag is 0 if that borrowed, else 1.
    Subtract { x: u8, y: u8 },
    /// `8XY6`: sets `VX` to `VY` shifted right by one; the flag is 1 if the
    /// bit shifted out was set, else 0.
    ShiftRight { x: u8, y: u8 },
    /// `8XY7`: sets `VX` to `VY - VX`; the flag is 0 if that borrowed, else 1.
    SubtractReversed { x: u8, y: u8 },
    /// `8XYE`: sets `VX` to `VY` shifted left by one; the flag is 1 if the
    /// bit shifted out was set, else 0.
    ShiftLeft { x: u8, y: u8 },
    /// `9XY0`: skips the next instruction if `VX != VY`.
    SkipIfRegistersDiffer { x: u8, y: u8 },
    /// `ANNN`: sets the index register to `NNN`.
    LoadIndex { address: u16 },
    /// `BNNN`: jumps to `NNN + V0`.
    JumpOffset { address: u16 },
    /// `CXNN`: sets `VX` to a random byte masked with `NN`.
    Random { x: u8, mask: u8 },
    /// `DXYN`: draws the sprite of `N` rows at the index register to `(VX, VY)`.
    Draw { x: u8, y: u8, rows: u8 },
    /// `EX9E`: skips the next instruction if key `VX` is down.
    SkipIfKeyDown { x: u8 },
    /// `EXA1`: skips the next instruction if key `VX` is not down.
    SkipIfKeyUp { x: u8 },
    /// `FX07`: sets `VX` to the delay timer.
    ReadDelay { x: u8 },
    /// `FX0A`: waits for a key and puts its number in `VX`.
    WaitKey { x: u8 },
    /// `FX15`: sets the delay timer to `VX`.
    SetDelay { x: u8 },
    /// `FX18`: sets the sound timer to `VX`.
    SetSound { x: u8 },
    /// `FX1E`: adds `VX` to the index register.
    AddIndex { x: u8 },
    /// `FX29`: points the index register at the glyph of digit `VX`.
    Glyph { x: u8 },
    /// `FX33`: writes the three decimal digits of `VX` to memory.
    Decimal { x: u8 },
    /// `FX55`: stores `V0` to `VX` in memory.
    Store { x: u8 },
    /// `FX65`: loads `V0` to `VX` from memory.
    Load { x: u8 },
}

impl Instruction {
    /// Whether the operands are in range: register numbers and the number
    /// of rows of a sprite below 16, addresses below 4096.
    pub open spec fn valid(self) -> bool {
        match self {
            Instruction::NoOperation | Instruction::ClearScreen | Instruction::Return => true,
            Instruction::Jump { address }
            | Instruction::Call { address }
            | Instruction::LoadIndex { address }
            | Instruction::JumpOffset { address } => address < 0x1000,
            Instruction::SkipIfEqual { x, .. }
            | Instruction::SkipIfNotEqual { x, .. }
            | Instruction::LoadImmediate { x, .. }
            | Instruction::AddImmediate { x, .. }
            | Instruction::Random { x, .. }
            | Instruction::SkipIfKeyDown { x }
            | Instruction::SkipIfKeyUp { x }
            | Instruction::ReadDelay { x }
            | Instruction::WaitKey { x }
            | Instruction::SetDelay { x }
            | Instruction::SetSound { x }
            | Instruction::AddIndex { x }
            | Instruction::Glyph { x }
            | Instruction::Decimal { x }
            | Instruction::Store { x }
            | Instruction::Load { x } => x < 16,
            Instruction::SkipIfRegistersEqual { x, y }
            | Instruction::Copy { x, y }
            | Instruction::Or { x, y }
            | Instruction::And { x, y }
            | Instruction::Xor { x, y }
            | Instruction::Add { x, y }
            | Instruction::Subtract { x, y }
            | Instruction::ShiftRight { x, y }
            | Instruction::SubtractReversed { x, y }
            | Instruction::ShiftLeft { x, y }
            | Instruction::SkipIfRegistersDiffer { x, y } => x < 16 && y < 16,
            Instruction::Draw { x, y, rows } => x < 16 && y < 16 && rows < 16,
        }
    }

    /// The instruction word that stands for the instruction: the table of
    /// the instruction set, read from the instruction to the word.
    pub open spec fn encoding(self) -> int {
        match self {
            Instruction::NoOperation => 0x0000,
            Instruction::ClearScreen => 0x00E0,
            Instruction::Return => 0x00EE,
            Instruction::Jump { address } => 0x1000 + address,
            Instruction::Call { address } => 0x2000 + address,
            Instruction::SkipIfEqual { x, value } => 0x3000 + 0x100 * x + value,
            Instruction::SkipIfNotEqual { x, value } => 0x4000 + 0x100 * x + value,
            Instruction::SkipIfRegistersEqual { x, y } => 0x5000 + 0x100 * x + 0x10 * y,
            Instruction::LoadImmediate { x, value } => 0x6000 + 0x100 * x + value,
            Instruction::AddImmediate { x, value } => 0x7000 + 0x100 * x + value,
            Instruction::Copy { x, y } => 0x8000 + 0x100 * x + 0x10 * y,
            Instruction::Or { x, y } => 0x8001 + 0x100 * x + 0x10 * y,
            Instruction::And { x, y } => 0x8002 + 0x100 * x + 0x10 * y,
            Instruction::Xor { x, y } => 0x8003 + 0x100 * x + 0x10 * y,
            Instruction::Add { x, y } => 0x8004 + 0x100 * x + 0x10 * y,
            Instruction::Subtract { x, y } => 0x8005 + 0x100 * x + 0x10 * y,
            Instruction::ShiftRight { x, y } => 0x8006 + 0x100 * x + 0x10 * y,
            Instruction::SubtractReversed { x, y } => 0x8007 + 0x100 * x + 0x10 * y,
            Instruction::ShiftLeft { x, y } => 0x800E + 0x100 * x + 0x10 * y,
            Instruction::SkipIfRegistersDiffer { x, y } => 0x9000 + 0x100 * x + 0x10 * y,
            Instruction::LoadIndex { address } => 0xA000 + address,
            Instruction::JumpOffset { address } => 0xB000 + address,
            Instruction::Random { x, mask } => 0xC000 + 0x100 * x + mask,
            Instruction::Draw { x, y, rows } => 0xD000 + 0x100 * x + 0x10 * y + rows,
            Instruction::SkipIfKeyDown { x } => 0xE09E + 0x100 * x,
            Instruction::SkipIfKeyUp { x } => 0xE0A1 + 0x100 * x,
            Instruction::ReadDelay { x } => 0xF007 + 0x100 * x,
            Instruction::WaitKey { x } => 0xF00A + 0x100 * x,
            Instruction::SetDelay { x } => 0xF015 + 0x100 * x,
            Instruction::SetSound { x } => 0xF018 + 0x100 * x,
            Instruction::AddIndex { x } => 0xF01E + 0x100 * x,
            Instruction::Glyph { x } => 0xF029 + 0x100 * x,
            Instruction::Decimal { x } => 0xF033 + 0x100 * x,
            Instruction::Store { x } => 0xF055 + 0x100 * x,
            Instruction::Load { x } => 0xF065 + 0x100 * x,
        }
    }
}

/// The top nibble of an instruction word.
pub open spec fn family(opcode: u16) -> u16 {
    opcode / 0x1000
}

/// The register number `X`: the second nibble.
pub open spec fn operand_x(opcode: u16) -> u8 {
    ((opcode / 0x100) % 0x10) as u8
}

/// The register number `Y`: the third nibble.
pub open spec fn operand_y(opcode: u16) -> u8 {
    ((opcode / 0x10) % 0x10) as u8
}

/// The constant `N`: the low nibble.
pub open spec fn operand_n(opcode: u16) -> u8 {
    (opcode % 0x10) as u8
}

/// The constant `NN`: the low byte.
pub open spec fn operand_nn(opcode: u16) -> u8 {
    (opcode % 0x100) as u8
}

/// The address `NNN`: the low twelve bits.
pub open spec fn operand_nnn(opcode: u16) -> u16 {
    opcode % 0x1000
}

/// The instruction that the arithmetic family `8XY_` holds for the low nibble `n`.
pub open spec fn decode_arithmetic(x: u8, y: u8, n: u8) -> Option<Instruction> {
    match n {
        0x0 => Some(Instruction::Copy { x, y }),
        0x1 => Some(Instruction::Or { x, y }),
        0x2 => Some(Instruction::And { x, y }),
        0x3 => Some(Instruction::Xor { x, y }),
        0x4 => Some(Instruction::Add { x, y }),
        0x5 => Some(Instruction::Subtract { x, y }),
        0x6 => Some(Instruction::ShiftRight { x, y }),
        0x7 => Some(Instruction::SubtractReversed { x, y }),
        0xE => Some(Instruction::ShiftLeft { x, y }),
        _ => None,
    }
}

/// The instruction that the family `FX__` holds for the low byte `nn`.
pub open spec fn decode_miscellaneous(x: u8, nn: u8) -> Option<Instruction> {
    match nn {
        0x07 => Some(Instruction::ReadDelay { x }),
        0x0A => Some(Instruction::WaitKey { x }),
        0x15 => Some(Instruction::SetDelay { x }),
        0x18 => Some(Instruction::SetSound { x }),
        0x1E => Some(Instruction::AddIndex { x }),
        0x29 => Some(Instruction::Glyph { x }),
        0x33 => Some(Instruction::Decimal { x }),
        0x55 => Some(Instruction::Store { x }),
        0x65 => Some(Instruction::Load { x }),
        _ => None,
    }
}

/// The instruction that an instruction word stands for, or `None` where the
/// word is no instruction of the machine.
pub open spec fn decode_spec(opcode: u16) -> Option<Instruction> {
    let x = operand_x(opcode);
    let y = operand_y(opcode);
    let n = operand_n(opcode);
    let nn = operand_nn(opcode);
    let nnn = operand_nnn(opcode);
    match family(opcode) {
        0x0 => match nnn {
            0x000 => Some(Instruction::NoOperation),
            0x0E0 => Some(Instruction::ClearScreen),
            0x0EE => Some(Instruction::Return),
            _ => None,
        },
        0x1 => Some(Instruction::Jump { address: nnn }),
        0x2 => Some(Instruction::Call { address: nnn }),
        0x3 => Some(Instruction::SkipIfEqual { x, value: nn }),
        0x4 => Some(Instruction::SkipIfNotEqual { x, value: nn }),
        0x5 => if n == 0 {
            Some(Instruction::SkipIfRegistersEqual { x, y })
        } else {
            None
        },
        0x6 => Some(Instruction::LoadImmediate { x, value: nn }),
        0x7 => Some(Instruction::AddImmediate { x, value: nn }),
        0x8 => decode_arithmetic(x, y, n),
        0x9 => if n == 0 {
            Some(Instruction::SkipIfRegistersDiffer { x, y })
        } else {
            None
        },
        0xA => Some(Instruction::LoadIndex { address: nnn }),
        0xB => Some(Instruction::JumpOffset { address: nnn }),
        0xC => Some(Instruction::Random { x, mask: nn }),
        0xD => Some(Instruction::Draw { x, y, rows: n }),
        0xE => match nn {
            0x9E => Some(Instruction::SkipIfKeyDown { x }),
            0xA1 => Some(Instruction::SkipIfKeyUp { x }),
            _ => None,
        },
        _ => decode_miscellaneous(x, nn),
    }
}

/// An instruction word is made of its four nibbles.
proof fn lemma_nibbles_of_word(opcode: u16)
    ensures
        opcode == 0x1000 * family(opcode) + 0x100 * operand_x(opcode) + 0x10 * operand_y(opcode)
            + operand_n(opcode),
        operand_nn(opcode) == 0x10 * operand_y(opcode) + operand_n(opcode),
        operand_nnn(opcode) == 0x100 * operand_x(opcode) + operand_nn(opcode),
        family(opcode) < 16,
        operand_x(opcode) < 16,
        operand_y(opcode) < 16,
        operand_n(opcode) < 16,
{
    assert(opcode == 0x1000 * (opcode / 0x1000) + 0x100 * ((opcode / 0x100) % 0x10) + 0x10 * ((opcode
        / 0x10) % 0x10) + opcode % 0x10 && opcode % 0x100 == 0x10 * ((opcode / 0x10) % 0x10) + opcode
        % 0x10 && opcode % 0x1000 == 0x100 * ((opcode / 0x100) % 0x10) + opcode % 0x100 && opcode
        / 0x1000 < 16) by (bit_vector);
}

/// Decoding is sound: an instruction word that decodes to an instruction
/// is the encoding of that instruction, and the operands are in range.
pub proof fn decoded_instruction_encodes_the_word(opcode: u16)
    ensures
        decode_spec(opcode) matches Some(instruction) ==> instruction.valid()
            && instruction.encoding() == opcode,
{
    lemma_nibbles_of_word(opcode);
}

/// A family and an address make an instruction word, from which they are
/// read back.
proof fn lemma_word_of_address(top: u16, address: u16)
    requires
        top < 0x10,
        address < 0x1000,
    ensures
        ({
            let word = (0x1000 * top + address) as u16;
            &&& word == 0x1000 * top + address
            &&& family(word) == top
            &&& operand_nnn(word) == address
        }),
{
    let word = (0x1000 * top + address) as u16;
    assert(word / 0x1000 == top && word % 0x1000 == address) by (bit_vector)
        requires
            top < 0x10,
            address < 0x1000,
            word == 0x1000 * top + address,
    ;
}

/// A family, a register number and a byte make an instruction word, from
/// which they are read back.
proof fn lemma_word_of_byte(top: u16, x: u8, byte: u8)
    requires
        top < 0x10,
        x < 0x10,
    ensures
        ({
            let word = (0x1000 * top + 0x100 * x + byte) as u16;
            &&& word == 0x1000 * top + 0x100 * x + byte
            &&& family(word) == top
            &&& operand_x(word) == x
            &&& operand_nn(word) == byte
            &&& operand_nnn(word) == 0x100 * x + byte
        }),
{
    let word = (0x1000 * top + 0x100 * x + byte) as u16;
    assert(word / 0x1000 == top && (word / 0x100) % 0x10 == x && word % 0x100 == byte && word
        % 0x1000 == 0x100 * x + byte) by (bit_vector)
        requires
            top < 0x10,
            x < 0x10,
            word == 0x1000 * top + 0x100 * x + byte,
    ;
}

/// Four nibbles make an instruction word, from which they are read back.
proof fn lemma_word_of_nibbles(top: u16, x: u8, y: u8, n: u8)
    requires
        top < 0x10,
        x < 0x10,
        y < 0x10,
        n < 0x10,
    ensures
        ({
            let word = (0x1000 * top + 0x100 * x + 0x10 * y + n) as u16;
            &&& word == 0x1000 * top + 0x100 * x + 0x10 * y + n
            &&& family(word) == top
            &&& operand_x(word) == x
            &&& operand_y(word) == y
            &&& operand_n(word) == n
        }),
{
    let word = (0x1000 * top + 0x100 * x + 0x10 * y + n) as u16;
    assert(word / 0x1000 == top && (word / 0x100) % 0x10 == x && (word / 0x10) % 0x10 == y && word
        % 0x10 == n) by (bit_vector)
        requires
            top < 0x10,
            x < 0x10,
            y < 0x10,
            n < 0x10,
            word == 0x1000 * top + 0x100 * x + 0x10 * y + n,
    ;
}

/// Decoding undoes encoding: the encoding of an instruction whose operands
/// are in range is an instruction word, and decodes to that instruction.
pub proof fn encoded_instruction_decodes(instruction: Instruction)
    requires
        instruction.valid(),
    ensures
        0 <= instruction.encoding() <= 0xFFFF,
        decode_spec(instruction.encoding() as u16) == Some(instruction),
{
    match instruction {
        Instruction::NoOperation => lemma_word_of_address(0x0, 0x000),
        Instruction::ClearScreen => lemma_word_of_address(0x0, 0x0E0),
        Instruction::Return => lemma_word_of_address(0x0, 0x0EE),
        Instruction::Jump { address } => lemma_word_of_address(0x1, address),
        Instruction::Call { address } => lemma_word_of_address(0x2, address),
        Instruction::SkipIfEqual { x, value } => lemma_word_of_byte(0x3, x, value),
        Instruction::SkipIfNotEqual { x, value } => lemma_word_of_byte(0x4, x, value),
        Instruction::SkipIfRegistersEqual { x, y } => lemma_word_of_nibbles(0x5, x, y, 0x0),
        Instruction::LoadImmediate { x, value } => lemma_word_of_byte(0x6, x, value),
        Instruction::AddImmediate { x, value } => lemma_word_of_byte(0x7, x, value),
        Instruction::Copy { x, y } => lemma_word_of_nibbles(0x8, x, y, 0x0),
        Instruction::Or { x, y } => lemma_word_of_nibbles(0x8, x, y, 0x1),
        Instruction::And { x, y } => lemma_word_of_nibbles(0x8, x, y, 0x2),
        Instruction::Xor { x, y } => lemma_word_of_nibbles(0x8, x, y, 0x3),
        Instruction::Add { x, y } => lemma_word_of_nibbles(0x8, x, y, 0x4),
        Instruction::Subtract { x, y } => lemma_word_of_nibbles(0x8, x, y, 0x5),
        Instruction::ShiftRight { x, y } => lemma_word_of_nibbles(0x8, x, y, 0x6),
        Instruction::SubtractReversed { x, y } => lemma_word_of_nibbles(0x8, x, y, 0x7),
        Instruction::ShiftLeft { x, y } => lemma_word_of_nibbles(0x8, x, y, 0xE),
        Instruction::SkipIfRegistersDiffer { x, y } => lemma_word_of_nibbles(0x9, x, y, 0x0),
        Instruction::LoadIndex { address } => lemma_word_of_address(0xA, address),
        Instruction::JumpOffset { address } => lemma_word_of_address(0xB, address),
        Instruction::Random { x, mask } => lemma_word_of_byte(0xC, x, mask),
        Instruction::Draw { x, y, rows } => lemma_word_of_nibbles(0xD, x, y, rows),
        Instruction::SkipIfKeyDown { x } => lemma_word_of_byte(0xE, x, 0x9E),
        Instruction::SkipIfKeyUp { x } => lemma_word_of_byte(0xE, x, 0xA1),
        Instruction::ReadDelay { x } => lemma_word_of_byte(0xF, x, 0x07),
        Instruction::WaitKey { x } => lemma_word_of_byte(0xF, x, 0x0A),
        Instruction::SetDelay { x } => lemma_word_of_byte(0xF, x, 0x15),
        Instruction::SetSound { x } => lemma_word_of_byte(0xF, x, 0x18),
        Instruction::AddIndex { x } => lemma_word_of_byte(0xF, x, 0x1E),
        Instruction::Glyph { x } => lemma_word_of_byte(0xF, x, 0x29),
        Instruction::Decimal { x } => lemma_word_of_byte(0xF, x, 0x33),
        Instruction::Store { x } => lemma_word_of_byte(0xF, x, 0x55),
        Instruction::Load { x } => lemma_word_of_byte(0xF, x, 0x65),
    }
}

/// Decoding is complete: a word that decodes to nothing is the encoding of
/// no instruction.
pub proof fn refused_word_encodes_nothing(opcode: u16, instruction: Instruction)
    requires
        decode_spec(opcode) is None,
        instruction.valid(),
    ensures
        instruction.encoding() != opcode,
{
    encoded_instruction_decodes(instruction);
}

/// Reads the top nibble of an instruction word.
pub(crate) fn opcode_family(opcode: u16) -> (top: u16)
    ensures
        top == family(opcode),
        top < 16,
{
    assert(opcode >> 12 == opcode / 0x1000 && opcode >> 12 < 16) by (bit_vector);
    opcode >> 12
}

/// Reads the register number `X` of an instruction word.
pub(crate) fn opcode_x(opcode: u16) -> (x: u8)
    ensures
        x == operand_x(opcode),
        x < 16,
{
    assert((opcode & 0x0F00) >> 8 == (opcode / 0x100) % 0x10) by (bit_vector);
    ((opcode & 0x0F00) >> 8) as u8
}

/// Reads the register number `Y` of an instruction word.
pub(crate) fn opcode_y(opcode: u16) -> (y: u8)
    ensures
        y == operand_y(opcode),
        y < 16,
{
    assert((opcode & 0x00F0) >> 4 == (opcode / 0x10) % 0x10) by (bit_vector);
    ((opcode & 0x00F0) >> 4) as u8
}

/// Reads the constant `N` of an instruction word.
pub(crate) fn opcode_n(opcode: u16) -> (n: u8)
    ensures
        n == operand_n(opcode),
        n < 16,
{
    assert(opcode & 0x000F == opcode % 0x10) by (bit_vector);
    (opcode & 0x000F) as u8
}

/// Reads the constant `NN` of an instruction word.
pub(crate) fn opcode_nn(opcode: u16) -> (nn: u8)
    ensures
        nn == operand_nn(opcode),
{
    assert(opcode & 0x00FF == opcode % 0x100) by (bit_vector);
    (opcode & 0x00FF) as u8
}

/// Reads the address `NNN` of an instruction word.
pub(crate) fn opcode_nnn(opcode: u16) -> (nnn: u16)
    ensures
        nnn == operand_nnn(opcode),
        nnn < 0x1000,
{
    assert(opcode & 0x0FFF == opcode % 0x1000) by (bit_vector);
    opcode & 0x0FFF
}

/// Decodes an instruction word.
///
/// Returns the instruction whose encoding the word is, with its operands
/// in range, and `None` exactly for the words that encode no instruction.
pub fn decode(opcode: u16) -> (result: Option<Instruction>)
    ensures
        result == decode_spec(opcode),
        result matches Some(instruction) ==> instruction.valid() && instruction.encoding()
            == opcode,
        result is None ==> forall|instruction: Instruction|
            instruction.valid() ==> #[trigger] instruction.encoding() != opcode,
{
    proof {
        decoded_instruction_encodes_the_word(opcode);
        if decode_spec(opcode) is None {
            assert forall|instruction: Instruction| instruction.valid() implies #[trigger]
                instruction.encoding() != opcode by {
                refused_word_encodes_nothing(opcode, instruction);
            }
        }
    }
    let x = opcode_x(opcode);
    let y = opcode_y(opcode);
    let n = opcode_n(opcode);
    let nn = opcode_nn(opcode);
    let nnn = opcode_nnn(opcode);
    match opcode_family(opcode) {
        0x0 => match nnn {
            0x000 => Some(Instruction::NoOperation),
            0x0E0 => Some(Instruction::ClearScreen),
            0x0EE => Some(Instruction::Return),
            _ => None,
        },
        0x1 => Some(Instruction::Jump { address: nnn }),
        0x2 => Some(Instruction::Call { address: nnn }),
        0x3 => Some(Instruction::SkipIfEqual { x, value: nn }),
        0x4 => Some(Instruction::SkipIfNotEqual { x, value: nn }),
        0x5 => if n == 0 {
            Some(Instruction::SkipIfRegistersEqual { x, y })
        } else {
            None
        },
        0x6 => Some(Instruction::LoadImmediate { x, value: nn }),
        0x7 => Some(Instruction::AddImmediate { x, value: nn }),
        0x8 => match n {
            0x0 => Some(Instruction::Copy { x, y }),
            0x1 => Some(Instruction::Or { x, y }),
            0x2 => Some(Instruction::And { x, y }),
            0x3 => Some(Instruction::Xor { x, y }),
            0x4 => Some(Instruction::Add { x, y }),
            0x5 => Some(Instruction::Subtract { x, y }),
            0x6 => Some(Instruction::ShiftRight { x, y }),
            0x7 => Some(Instruction::SubtractReversed { x, y }),
            0xE => Some(Instruction::ShiftLeft { x, y }),
            _ => None,
        },
        0x9 => if n == 0 {
            Some(Instruction::SkipIfRegistersDiffer { x, y })
        } else {
            None
        },
        0xA => Some(Instruction::LoadIndex { address: nnn }),
        0xB => Some(Instruction::JumpOffset { address: nnn }),
        0xC => Some(Instruction::Random { x, mask: nn }),
        0xD => Some(Instruction::Draw { x, y, rows: n }),
        0xE => match nn {
            0x9E => Some(Instruction::SkipIfKeyDown { x }),
            0xA1 => Some(Instruction::SkipIfKeyUp { x }),
            _ => None,
        },
        _ => match nn {
            0x07 => Some(Instruction::ReadDelay { x }),
            0x0A => Some(Instruction::WaitKey { x }),
            0x15 => Some(Instruction::SetDelay { x }),
            0x18 => Some(Instruction::SetSound { x }),
            0x1E => Some(Instruction::AddIndex { x }),
            0x29 => Some(Instruction::Glyph { x }),
            0x33 => Some(Instruction::Decimal { x }),
            0x55 => Some(Instruction::Store { x }),
            0x65 => Some(Instruction::Load { x }),
            _ => None,
        },
    }
}

} // verus!
