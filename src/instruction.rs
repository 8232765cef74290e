use vstd::prelude::*;

use crate::error::Chip8Error;

verus! {

/// One decoded instruction. Register operands `x` and `y` are register numbers
/// below 16, `byte` an immediate byte, `addr` a 12-bit address.
#[derive(Clone, Copy, Debug, PartialEq, Eq, Structural)]
pub enum Instruction {
    /// `00E0`
    ClearScreen,
    /// `00EE`
    Return,
    /// `1nnn`
    Jump { addr: u16 },
    /// `2nnn`
    Call { addr: u16 },
    /// `3xkk`
    SkipIfEqualByte { x: u8, byte: u8 },
    /// `4xkk`
    SkipIfNotEqualByte { x: u8, byte: u8 },
    /// `5xy0`
    SkipIfEqualRegister { x: u8, y: u8 },
    /// `6xkk`
    LoadByte { x: u8, byte: u8 },
    /// `7xkk`
    AddByte { x: u8, byte: u8 },
    /// `8xy0`
    Move { x: u8, y: u8 },
    /// `8xy1`
    Or { x: u8, y: u8 },
    /// `8xy2`
    And { x: u8, y: u8 },
    /// `8xy3`
    Xor { x: u8, y: u8 },
    /// `8xy4`
    AddRegister { x: u8, y: u8 },
    /// `8xy5`
    Sub { x: u8, y: u8 },
    /// `8xy6`
    ShiftRight { x: u8, y: u8 },
    /// `8xy7`
    SubReversed { x: u8, y: u8 },
    /// `8xyE`
    ShiftLeft { x: u8, y: u8 },
    /// `9xy0`
    SkipIfNotEqualRegister { x: u8, y: u8 },
    /// `Annn`
    LoadIndex { addr: u16 },
    /// `Bnnn`
    JumpOffset { addr: u16 },
    /// `Cxkk`
    Random { x: u8, mask: u8 },
    /// `Dxyn`
    Draw { x: u8, y: u8, rows: u8 },
    /// `Ex9E`
    SkipIfKey { x: u8 },
    /// `ExA1`
    SkipIfNotKey { x: u8 },
    /// `Fx07`
    LoadDelay { x: u8 },
    /// `Fx0A`
    WaitKey { x: u8 },
    /// `Fx15`
    SetDelay { x: u8 },
    /// `Fx18`
    SetSound { x: u8 },
    /// `Fx1E`
    AddIndex { x: u8 },
    /// `Fx29`
    LoadGlyph { x: u8 },
    /// `Fx33`
    StoreBcd { x: u8 },
    /// `Fx55`
    StoreRegisters { x: u8 },
    /// `Fx65`
    LoadRegisters { x: u8 },
}

/// Second nibble of an opcode.
pub open spec fn field_x(op: u16) -> u8 {
    ((op / 256) % 16) as u8
}

/// Third nibble of an opcode.
pub open spec fn field_y(op: u16) -> u8 {
    ((op / 16) % 16) as u8
}

/// Lowest nibble of an opcode.
pub open spec fn field_n(op: u16) -> u8 {
    (op % 16) as u8
}

/// Low byte of an opcode.
pub open spec fn field_kk(op: u16) -> u8 {
    (op % 256) as u8
}

/// Low twelve bits of an opcode.
pub open spec fn field_nnn(op: u16) -> u16 {
    (op % 4096) as u16
}

/// The instruction that an opcode denotes, or `UnknownOpcode` carrying the
/// opcode where it matches none of the patterns.
pub open spec fn decode_spec(op: u16) -> Result<Instruction, Chip8Error> {
    let x = field_x(op);
    let y = field_y(op);
    let n = field_n(op);
    let kk = field_kk(op);
    let nnn = field_nnn(op);
    let unknown = Err(Chip8Error::UnknownOpcode(op));
    let top = op / 4096;
    if top == 0x0 {
        if op == 0x00E0 {
            Ok(Instruction::ClearScreen)
        } else if op == 0x00EE {
            Ok(Instruction::Return)
        } else {
            unknown
        }
    } else if top == 0x1 {
        Ok(Instruction::Jump { addr: nnn })
    } else if top == 0x2 {
        Ok(Instruction::Call { addr: nnn })
    } else if top == 0x3 {
        Ok(Instruction::SkipIfEqualByte { x, byte: kk })
    } else if top == 0x4 {
        Ok(Instruction::SkipIfNotEqualByte { x, byte: kk })
    } else if top == 0x5 {
        if n == 0 {
            Ok(Instruction::SkipIfEqualRegister { x, y })
        } else {
            unknown
        }
    } else if top == 0x6 {
        Ok(Instruction::LoadByte { x, byte: kk })
    } else if top == 0x7 {
        Ok(Instruction::AddByte { x, byte: kk })
    } else if top == 0x8 {
        if n == 0x0 {
            Ok(Instruction::Move { x, y })
        } else if n == 0x1 {
            Ok(Instruction::Or { x, y })
        } else if n == 0x2 {
            Ok(Instruction::And { x, y })
        } else if n == 0x3 {
            Ok(Instruction::Xor { x, y })
        } else if n == 0x4 {
            Ok(Instruction::AddRegister { x, y })
        } else if n == 0x5 {
            Ok(Instruction::Sub { x, y })
        } else if n == 0x6 {
            Ok(Instruction::ShiftRight { x, y })
        } else if n == 0x7 {
            Ok(Instruction::SubReversed { x, y })
        } else if n == 0xE {
            Ok(Instruction::ShiftLeft { x, y })
        } else {
            unknown
        }
    } else if top == 0x9 {
        if n == 0 {
            Ok(Instruction::SkipIfNotEqualRegister { x, y })
        } else {
            unknown
        }
    } else if top == 0xA {
        Ok(Instruction::LoadIndex { addr: nnn })
    } else if top == 0xB {
        Ok(Instruction::JumpOffset { addr: nnn })
    } else if top == 0xC {
        Ok(Instruction::Random { x, mask: kk })
    } else if top == 0xD {
        Ok(Instruction::Draw { x, y, rows: n })
    } else if top == 0xE {
        if kk == 0x9E {
            Ok(Instruction::SkipIfKey { x })
        } else if kk == 0xA1 {
            Ok(Instruction::SkipIfNotKey { x })
        } else {
            unknown
        }
    } else {
        if kk == 0x07 {
            Ok(Instruction::LoadDelay { x })
        } else if kk == 0x0A {
            Ok(Instruction::WaitKey { x })
        } else if kk == 0x15 {
            Ok(Instruction::SetDelay { x })
        } else if kk == 0x18 {
            Ok(Instruction::SetSound { x })
        } else if kk == 0x1E {
            Ok(Instruction::AddIndex { x })
        } else if kk == 0x29 {
            Ok(Instruction::LoadGlyph { x })
        } else if kk == 0x33 {
            Ok(Instruction::StoreBcd { x })
        } else if kk == 0x55 {
            Ok(Instruction::StoreRegisters { x })
        } else if kk == 0x65 {
            Ok(Instruction::LoadRegisters { x })
        } else {
            unknown
        }
    }
}

/// Register operands of decoded instructions are register numbers.
pub open spec fn operands_in_range(ins: Instruction) -> bool {
    match ins {
        Instruction::SkipIfEqualByte { x, .. }
        | Instruction::SkipIfNotEqualByte { x, .. }
        | Instruction::LoadByte { x, .. }
        | Instruction::AddByte { x, .. }
        | Instruction::Random { x, .. }
        | Instruction::SkipIfKey { x }
        | Instruction::SkipIfNotKey { x }
        | Instruction::LoadDelay { x }
        | Instruction::WaitKey { x }
        | Instruction::SetDelay { x }
        | Instruction::SetSound { x }
        | Instruction::AddIndex { x }
        | Instruction::LoadGlyph { x }
        | Instruction::StoreBcd { x }
        | Instruction::StoreRegisters { x }
        | Instruction::LoadRegisters { x } => x < 16,
        Instruction::SkipIfEqualRegister { x, y }
        | Instruction::Move { x, y }
        | Instruction::Or { x, y }
        | Instruction::And { x, y }
        | Instruction::Xor { x, y }
        | Instruction::AddRegister { x, y }
        | Instruction::Sub { x, y }
        | Instruction::ShiftRight { x, y }
        | Instruction::SubReversed { x, y }
        | Instruction::ShiftLeft { x, y }
        | Instruction::SkipIfNotEqualRegister { x, y } => x < 16 && y < 16,
        Instruction::Draw { x, y, rows } => x < 16 && y < 16 && rows < 16,
        Instruction::Jump { addr } | Instruction::Call { addr } | Instruction::LoadIndex { addr }
        | Instruction::JumpOffset { addr } => addr < 4096,
        Instruction::ClearScreen | Instruction::Return => true,
    }
}

/// The family that an instruction belongs to.
pub open spec fn group_of(ins: Instruction) -> InstructionGroup {
    match ins {
        Instruction::ClearScreen => InstructionGroup::Control,
        Instruction::Return => InstructionGroup::Control,
        Instruction::Jump { addr } => InstructionGroup::Control,
        Instruction::Call { addr } => InstructionGroup::Control,
        Instruction::SkipIfEqualByte { x, byte } => InstructionGroup::Control,
        Instruction::SkipIfNotEqualByte { x, byte } => InstructionGroup::Control,
        Instruction::SkipIfEqualRegister { x, y } => InstructionGroup::Control,
        Instruction::SkipIfNotEqualRegister { x, y } => InstructionGroup::Control,
        Instruction::JumpOffset { addr } => InstructionGroup::Control,
        Instruction::SkipIfKey { x } => InstructionGroup::Control,
        Instruction::SkipIfNotKey { x } => InstructionGroup::Control,
        Instruction::WaitKey { x } => InstructionGroup::Control,
        Instruction::LoadIndex { addr } => InstructionGroup::Memory,
        Instruction::Draw { x, y, rows } => InstructionGroup::Memory,
        Instruction::AddIndex { x } => InstructionGroup::Memory,
        Instruction::LoadGlyph { x } => InstructionGroup::Memory,
        Instruction::StoreBcd { x } => InstructionGroup::Memory,
        Instruction::StoreRegisters { x } => InstructionGroup::Memory,
        Instruction::LoadRegisters { x } => InstructionGroup::Memory,
        Instruction::AddRegister { .. } => InstructionGroup::Arithmetic,
        Instruction::Sub { .. } => InstructionGroup::Arithmetic,
        Instruction::ShiftRight { .. } => InstructionGroup::Arithmetic,
        Instruction::SubReversed { .. } => InstructionGroup::Arithmetic,
        Instruction::ShiftLeft { .. } => InstructionGroup::Arithmetic,
        _ => InstructionGroup::Registers,
    }
}

/// The three families of instructions, by what they act on.
#[derive(Clone, Copy, Debug, PartialEq, Eq, Structural)]
pub enum InstructionGroup {
    /// The screen clear and the instructions that move the program counter.
    Control,
    /// Instructions that compute into registers and timers.
    Registers,
    /// Arithmetic instructions that leave a flag in VF.
    Arithmetic,
    /// Instructions on the index register and memory.
    Memory,
}

/// The family that an instruction belongs to.
pub fn instruction_group(ins: Instruction) -> (g: InstructionGroup)
    ensures
        g == group_of(ins),
{
    match ins {
        Instruction::ClearScreen => InstructionGroup::Control,
        Instruction::Return => InstructionGroup::Control,
        Instruction::Jump { addr } => InstructionGroup::Control,
        Instruction::Call { addr } => InstructionGroup::Control,
        Instruction::SkipIfEqualByte { x, byte } => InstructionGroup::Control,
        Instruction::SkipIfNotEqualByte { x, byte } => InstructionGroup::Control,
        Instruction::SkipIfEqualRegister { x, y } => InstructionGroup::Control,
        Instruction::SkipIfNotEqualRegister { x, y } => InstructionGroup::Control,
        Instruction::JumpOffset { addr } => InstructionGroup::Control,
        Instruction::SkipIfKey { x } => InstructionGroup::Control,
        Instruction::SkipIfNotKey { x } => InstructionGroup::Control,
        Instruction::WaitKey { x } => InstructionGroup::Control,
        Instruction::LoadIndex { addr } => InstructionGroup::Memory,
        Instruction::Draw { x, y, rows } => InstructionGroup::Memory,
        Instruction::AddIndex { x } => InstructionGroup::Memory,
        Instruction::LoadGlyph { x } => InstructionGroup::Memory,
        Instruction::StoreBcd { x } => InstructionGroup::Memory,
        Instruction::StoreRegisters { x } => InstructionGroup::Memory,
        Instruction::LoadRegisters { x } => InstructionGroup::Memory,
        Instruction::AddRegister { .. } => InstructionGroup::Arithmetic,
        Instruction::Sub { .. } => InstructionGroup::Arithmetic,
        Instruction::ShiftRight { .. } => InstructionGroup::Arithmetic,
        Instruction::SubReversed { .. } => InstructionGroup::Arithmetic,
        Instruction::ShiftLeft { .. } => InstructionGroup::Arithmetic,
        _ => InstructionGroup::Registers,
    }
}

proof fn lemma_opcode_fields(op: u16)
    by (bit_vector)
    ensures
        (op & 0xF000) >> 12 == op / 4096,
        (op & 0x0F00) >> 8 == (op / 256) % 16,
        (op & 0x00F0) >> 4 == (op / 16) % 16,
        op & 0x000F == op % 16,
        op & 0x00FF == op % 256,
        op & 0x0FFF == op % 4096,
{
}

/// Splits a 16-bit opcode into its instruction, or reports it as unknown.
pub fn decode(opcode: u16) -> (r: Result<Instruction, Chip8Error>)
    ensures
        r == decode_spec(opcode),
        r is Ok ==> operands_in_range(r->Ok_0),
{
    proof {
        lemma_opcode_fields(opcode);
    }
    let first = (opcode & 0xF000) >> 12;
    let x = ((opcode & 0x0F00) >> 8) as u8;
    let y = ((opcode & 0x00F0) >> 4) as u8;
    let n = (opcode & 0x000F) as u8;
    let kk = (opcode & 0x00FF) as u8;
    let nnn = opcode & 0x0FFF;
    let unknown = Err(Chip8Error::UnknownOpcode(opcode));
    match first {
        0x0 => match opcode {
            0x00E0 => Ok(Instruction::ClearScreen),
            0x00EE => Ok(Instruction::Return),
            _ => unknown,
        },
        0x1 => Ok(Instruction::Jump { addr: nnn }),
        0x2 => Ok(Instruction::Call { addr: nnn }),
        0x3 => Ok(Instruction::SkipIfEqualByte { x, byte: kk }),
        0x4 => Ok(Instruction::SkipIfNotEqualByte { x, byte: kk }),
        0x5 => match n {
            0x0 => Ok(Instruction::SkipIfEqualRegister { x, y }),
            _ => unknown,
        },
        0x6 => Ok(Instruction::LoadByte { x, byte: kk }),
        0x7 => Ok(Instruction::AddByte { x, byte: kk }),
        0x8 => match n {
            0x0 => Ok(Instruction::Move { x, y }),
            0x1 => Ok(Instruction::Or { x, y }),
            0x2 => Ok(Instruction::And { x, y }),
            0x3 => Ok(Instruction::Xor { x, y }),
            0x4 => Ok(Instruction::AddRegister { x, y }),
            0x5 => Ok(Instruction::Sub { x, y }),
            0x6 => Ok(Instruction::ShiftRight { x, y }),
            0x7 => Ok(Instruction::SubReversed { x, y }),
            0xE => Ok(Instruction::ShiftLeft { x, y }),
            _ => unknown,
        },
        0x9 => match n {
            0x0 => Ok(Instruction::SkipIfNotEqualRegister { x, y }),
            _ => unknown,
        },
        0xA => Ok(Instruction::LoadIndex { addr: nnn }),
        0xB => Ok(Instruction::JumpOffset { addr: nnn }),
        0xC => Ok(Instruction::Random { x, mask: kk }),
        0xD => Ok(Instruction::Draw { x, y, rows: n }),
        0xE => match kk {
            0x9E => Ok(Instruction::SkipIfKey { x }),
            0xA1 => Ok(Instruction::SkipIfNotKey { x }),
            _ => unknown,
        },
        _ => match kk {
            0x07 => Ok(Instruction::LoadDelay { x }),
            0x0A => Ok(Instruction::WaitKey { x }),
            0x15 => Ok(Instruction::SetDelay { x }),
            0x18 => Ok(Instruction::SetSound { x }),
            0x1E => Ok(Instruction::AddIndex { x }),
            0x29 => Ok(Instruction::LoadGlyph { x }),
            0x33 => Ok(Instruction::StoreBcd { x }),
            0x55 => Ok(Instruction::StoreRegisters { x }),
            0x65 => Ok(Instruction::LoadRegisters { x }),
            _ => unknown,
        },
    }
}

} // verus!
