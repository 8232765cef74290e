use vstd::prelude::*;

use crate::error::Chip8Error;
use crate::font::{FONT, FONT_START};
use crate::instruction::{decode_spec, group_of, Instruction, InstructionGroup};

verus! {

/// Bytes of addressable memory.
pub const MEMORY_SIZE: usize = 4096;

/// Address at which a program image is placed and execution starts.
pub const PROGRAM_START: u16 = 0x200;

/// Largest program image that fits in memory.
pub const MAX_IMAGE_SIZE: usize = 3584;

/// Width of the framebuffer in cells.
pub const VIDEO_WIDTH: usize = 64;

/// Height of the framebuffer in cells.
pub const VIDEO_HEIGHT: usize = 32;

/// Cells of the framebuffer, row-major.
pub const VIDEO_SIZE: usize = 2048;

/// Number of keys on the keypad.
pub const NUM_KEYS: usize = 16;

/// Number of return-address slots on the call stack.
pub const STACK_SIZE: usize = 16;

/// The whole state of a machine as mathematical values.
pub struct MachineView {
    pub registers: Seq<u8>,
    pub memory: Seq<u8>,
    pub pc: u16,
    pub index: u16,
    pub stack: Seq<u16>,
    pub sp: u8,
    pub delay: u8,
    pub sound: u8,
    pub keypad: Seq<bool>,
    pub video: Seq<bool>,
    pub redraw: bool,
}

/// The sizes of the state's arrays, and a stack pointer within the stack.
pub open spec fn view_wf(s: MachineView) -> bool {
    &&& s.registers.len() == 16
    &&& s.memory.len() == MEMORY_SIZE
    &&& s.stack.len() == STACK_SIZE
    &&& s.sp <= STACK_SIZE
    &&& s.keypad.len() == NUM_KEYS
    &&& s.video.len() == VIDEO_SIZE
}

/// Memory of a fresh machine: the glyph table at its place, zero elsewhere.
pub open spec fn initial_memory() -> Seq<u8> {
    Seq::new(
        MEMORY_SIZE as nat,
        |a: int|
            if FONT_START <= a < FONT_START + 80 {
                FONT@[a - FONT_START]
            } else {
                0u8
            },
    )
}

/// State of a fresh machine.
pub open spec fn initial_state() -> MachineView {
    MachineView {
        registers: Seq::new(16, |i: int| 0u8),
        memory: initial_memory(),
        pc: PROGRAM_START,
        index: 0,
        stack: Seq::new(STACK_SIZE as nat, |i: int| 0u16),
        sp: 0,
        delay: 0,
        sound: 0,
        keypad: Seq::new(NUM_KEYS as nat, |i: int| false),
        video: Seq::new(VIDEO_SIZE as nat, |i: int| false),
        redraw: true,
    }
}

/// Installing a program image: its bytes go to memory from the program start
/// on, and nothing else changes; an image that does not fit is refused.
pub open spec fn load_spec(s: MachineView, image: Seq<u8>) -> (MachineView, Result<(), Chip8Error>) {
    if image.len() > MAX_IMAGE_SIZE {
        (s, Err(Chip8Error::ImageTooLarge))
    } else {
        let memory = Seq::new(
            s.memory.len(),
            |a: int|
                if PROGRAM_START <= a < PROGRAM_START + image.len() {
                    image[a - PROGRAM_START]
                } else {
                    s.memory[a]
                },
        );
        (MachineView { memory, ..s }, Ok(()))
    }
}

/// One step of each timer towards zero.
pub open spec fn tick_spec(s: MachineView) -> MachineView {
    MachineView {
        delay: if s.delay > 0 { (s.delay - 1) as u8 } else { 0 },
        sound: if s.sound > 0 { (s.sound - 1) as u8 } else { 0 },
        ..s
    }
}

/// The lowest-numbered pressed key from `from` on, if any.
pub open spec fn first_pressed_from(keypad: Seq<bool>, from: int) -> Option<u8>
    decreases NUM_KEYS - from,
{
    if from < 0 || from >= NUM_KEYS {
        None
    } else if keypad[from] {
        Some(from as u8)
    } else {
        first_pressed_from(keypad, from + 1)
    }
}

/// The lowest-numbered pressed key, if any.
pub open spec fn first_pressed(keypad: Seq<bool>) -> Option<u8> {
    first_pressed_from(keypad, 0)
}

/// The big-endian word stored at `addr` and `addr + 1`.
pub open spec fn word_at(memory: Seq<u8>, addr: int) -> u16 {
    (memory[addr] * 256 + memory[addr + 1]) as u16
}

pub open spec fn with_register(s: MachineView, x: u8, v: u8) -> MachineView {
    MachineView { registers: s.registers.update(x as int, v), ..s }
}

/// Sets VF to `flag` first and then `Vx` to `v`.
pub open spec fn with_flag_then_register(s: MachineView, flag: u8, x: u8, v: u8) -> MachineView {
    with_register(with_register(s, 0xF, flag), x, v)
}

pub open spec fn skip_if(s: MachineView, cond: bool) -> MachineView {
    if cond {
        MachineView { pc: (s.pc + 2) as u16, ..s }
    } else {
        s
    }
}

/// Whether the sprite row `row` has its pixel in column `j` set; column 0 is bit 7.
pub open spec fn sprite_pixel(row: u8, j: int) -> bool {
    row & (0x80u8 >> (j as u8)) != 0
}

/// The sprite row that lands on `cell` when the sprite's top edge is at `vy`,
/// counted with wraparound.
pub open spec fn row_offset(cell: int, vy: u8) -> int {
    (cell / VIDEO_WIDTH as int + VIDEO_HEIGHT - vy % 32) % VIDEO_HEIGHT as int
}

/// The sprite column that lands on `cell` when the sprite's left edge is at
/// `vx`, counted with wraparound.
pub open spec fn col_offset(cell: int, vx: u8) -> int {
    (cell % VIDEO_WIDTH as int + VIDEO_WIDTH - vx % 64) % VIDEO_WIDTH as int
}

/// Whether a set sprite pixel lands on `cell` when `rows` rows of sprite,
/// read from `memory` at `index`, are drawn at (`vx`, `vy`).
pub open spec fn sprite_covers(memory: Seq<u8>, index: int, vx: u8, vy: u8, rows: u8, cell: int) -> bool {
    let i = row_offset(cell, vy);
    let j = col_offset(cell, vx);
    i < rows && j < 8 && sprite_pixel(memory[index + i], j)
}

/// `Dxyn`: every covered cell is flipped, VF tells whether a lit cell went dark,
/// and `redraw` is raised where a cell changed.
pub open spec fn draw_spec(s: MachineView, x: u8, y: u8, rows: u8) -> MachineView {
    let vx = s.registers[x as int];
    let vy = s.registers[y as int];
    let index = s.index as int;
    let collision = exists|c: int|
        0 <= c < VIDEO_SIZE && #[trigger] sprite_covers(s.memory, index, vx, vy, rows, c)
            && s.video[c];
    let changed = exists|c: int|
        0 <= c < VIDEO_SIZE && #[trigger] sprite_covers(s.memory, index, vx, vy, rows, c);
    MachineView {
        video: Seq::new(
            s.video.len(),
            |c: int| s.video[c] != sprite_covers(s.memory, index, vx, vy, rows, c),
        ),
        redraw: s.redraw || changed,
        registers: s.registers.update(0xF, if collision { 1u8 } else { 0u8 }),
        ..s
    }
}

/// The decimal digits of `v`: hundreds, tens, ones.
pub open spec fn bcd_digits(v: u8) -> Seq<u8> {
    seq![(v / 100) as u8, ((v / 10) % 10) as u8, (v % 10) as u8]
}

/// The screen clear and the instructions that move the program counter. Instructions of the other families are left to their own
/// functions.
pub open spec fn control_spec(s: MachineView, ins: Instruction) -> (MachineView, Result<(), Chip8Error>) {
    let reg = |r: u8| s.registers[r as int];
    match ins {
        Instruction::ClearScreen => (
            MachineView { video: Seq::new(s.video.len(), |c: int| false), redraw: true, ..s },
            Ok(()),
        ),
        Instruction::Return => if s.sp == 0 {
            (s, Err(Chip8Error::StackUnderflow))
        } else {
            (
                MachineView { sp: (s.sp - 1) as u8, pc: s.stack[s.sp - 1], ..s },
                Ok(()),
            )
        },
        Instruction::Jump { addr } => (MachineView { pc: addr, ..s }, Ok(())),
        Instruction::Call { addr } => if s.sp >= STACK_SIZE {
            (s, Err(Chip8Error::StackOverflow))
        } else {
            (
                MachineView {
                    stack: s.stack.update(s.sp as int, s.pc),
                    sp: (s.sp + 1) as u8,
                    pc: addr,
                    ..s
                },
                Ok(()),
            )
        },
        Instruction::SkipIfEqualByte { x, byte } => (skip_if(s, reg(x) == byte), Ok(())),
        Instruction::SkipIfNotEqualByte { x, byte } => (skip_if(s, reg(x) != byte), Ok(())),
        Instruction::SkipIfEqualRegister { x, y } => (skip_if(s, reg(x) == reg(y)), Ok(())),
        Instruction::SkipIfNotEqualRegister { x, y } => (skip_if(s, reg(x) != reg(y)), Ok(())),
        Instruction::JumpOffset { addr } => (MachineView { pc: (addr + reg(0)) as u16, ..s }, Ok(())),
        Instruction::SkipIfKey { x } => if reg(x) >= NUM_KEYS {
            (s, Err(Chip8Error::KeyOutOfRange(reg(x))))
        } else {
            (skip_if(s, s.keypad[reg(x) as int]), Ok(()))
        },
        Instruction::SkipIfNotKey { x } => if reg(x) >= NUM_KEYS {
            (s, Err(Chip8Error::KeyOutOfRange(reg(x))))
        } else {
            (skip_if(s, !s.keypad[reg(x) as int]), Ok(()))
        },
        Instruction::WaitKey { x } => match first_pressed(s.keypad) {
            Some(k) => (with_register(s, x, k), Ok(())),
            None => (MachineView { pc: (s.pc - 2) as u16, ..s }, Ok(())),
        },
        _ => (s, Ok(())),
    }
}

/// The instructions that compute into registers and timers. Instructions of the other families are left to their own
/// functions.
pub open spec fn registers_spec(s: MachineView, ins: Instruction, random: u8) -> (MachineView, Result<(), Chip8Error>) {
    let reg = |r: u8| s.registers[r as int];
    match ins {
        Instruction::LoadByte { x, byte } => (with_register(s, x, byte), Ok(())),
        Instruction::AddByte { x, byte } => (
            with_register(s, x, ((reg(x) + byte) % 256) as u8),
            Ok(()),
        ),
        Instruction::Move { x, y } => (with_register(s, x, reg(y)), Ok(())),
        Instruction::Or { x, y } => (with_register(s, x, reg(x) | reg(y)), Ok(())),
        Instruction::And { x, y } => (with_register(s, x, reg(x) & reg(y)), Ok(())),
        Instruction::Xor { x, y } => (with_register(s, x, reg(x) ^ reg(y)), Ok(())),
        Instruction::Random { x, mask } => (with_register(s, x, random & mask), Ok(())),
        Instruction::LoadDelay { x } => (with_register(s, x, s.delay), Ok(())),
        Instruction::SetDelay { x } => (MachineView { delay: reg(x), ..s }, Ok(())),
        Instruction::SetSound { x } => (MachineView { sound: reg(x), ..s }, Ok(())),
        _ => (s, Ok(())),
    }
}

/// The arithmetic instructions that leave a flag in VF. Instructions of the other families are left to their own
/// functions.
pub open spec fn arithmetic_spec(s: MachineView, ins: Instruction) -> (MachineView, Result<(), Chip8Error>) {
    let reg = |r: u8| s.registers[r as int];
    match ins {
        Instruction::AddRegister { x, y } => (
            with_flag_then_register(
                s,
                if reg(x) + reg(y) > 255 { 1 } else { 0 },
                x,
                ((reg(x) + reg(y)) % 256) as u8,
            ),
            Ok(()),
        ),
        Instruction::Sub { x, y } => (
            with_flag_then_register(
                s,
                if reg(x) >= reg(y) { 1 } else { 0 },
                x,
                ((reg(x) - reg(y) + 256) % 256) as u8,
            ),
            Ok(()),
        ),
        Instruction::ShiftRight { x, y } => (
            with_flag_then_register(s, reg(x) % 2, x, reg(x) / 2),
            Ok(()),
        ),
        Instruction::SubReversed { x, y } => (
            with_flag_then_register(
                s,
                if reg(y) >= reg(x) { 1 } else { 0 },
                x,
                ((reg(y) - reg(x) + 256) % 256) as u8,
            ),
            Ok(()),
        ),
        Instruction::ShiftLeft { x, y } => (
            with_flag_then_register(s, reg(x) / 128, x, ((reg(x) * 2) % 256) as u8),
            Ok(()),
        ),
        _ => (s, Ok(())),
    }
}

/// The instructions on the index register and memory. Instructions of the other families are left to their own
/// functions.
pub open spec fn memory_spec(s: MachineView, ins: Instruction) -> (MachineView, Result<(), Chip8Error>) {
    let reg = |r: u8| s.registers[r as int];
    match ins {
        Instruction::LoadIndex { addr } => (MachineView { index: addr, ..s }, Ok(())),
        Instruction::Draw { x, y, rows } => if s.index + rows > MEMORY_SIZE {
            (s, Err(Chip8Error::MemoryOutOfRange(s.index)))
        } else {
            (draw_spec(s, x, y, rows), Ok(()))
        },
        Instruction::AddIndex { x } => (
            MachineView { index: ((s.index + reg(x)) % 65536) as u16, ..s },
            Ok(()),
        ),
        Instruction::LoadGlyph { x } => (
            MachineView { index: (FONT_START + 5 * (reg(x) % 16)) as u16, ..s },
            Ok(()),
        ),
        Instruction::StoreBcd { x } => if s.index + 3 > MEMORY_SIZE {
            (s, Err(Chip8Error::MemoryOutOfRange(s.index)))
        } else {
            let d = bcd_digits(reg(x));
            (
                MachineView {
                    memory: s.memory.update(s.index as int, d[0]).update(s.index + 1, d[1]).update(
                        s.index + 2,
                        d[2],
                    ),
                    ..s
                },
                Ok(()),
            )
        },
        Instruction::StoreRegisters { x } => if s.index + x + 1 > MEMORY_SIZE {
            (s, Err(Chip8Error::MemoryOutOfRange(s.index)))
        } else {
            (
                MachineView {
                    memory: Seq::new(
                        s.memory.len(),
                        |a: int|
                            if s.index <= a <= s.index + x {
                                s.registers[a - s.index]
                            } else {
                                s.memory[a]
                            },
                    ),
                    ..s
                },
                Ok(()),
            )
        },
        Instruction::LoadRegisters { x } => if s.index + x + 1 > MEMORY_SIZE {
            (s, Err(Chip8Error::MemoryOutOfRange(s.index)))
        } else {
            (
                MachineView {
                    registers: Seq::new(
                        s.registers.len(),
                        |r: int|
                            if r <= x {
                                s.memory[s.index + r]
                            } else {
                                s.registers[r]
                            },
                    ),
                    ..s
                },
                Ok(()),
            )
        },
        _ => (s, Ok(())),
    }
}

/// Executing one decoded instruction on a state whose program counter has
/// already moved past it.
pub open spec fn execute_spec(s: MachineView, ins: Instruction, random: u8) -> (MachineView, Result<(), Chip8Error>) {
    match group_of(ins) {
        InstructionGroup::Control => control_spec(s, ins),
        InstructionGroup::Registers => registers_spec(s, ins, random),
        InstructionGroup::Arithmetic => arithmetic_spec(s, ins),
        InstructionGroup::Memory => memory_spec(s, ins),
    }
}

/// The state after fetching the word at the program counter: the counter has
/// moved past it. Fails where the word does not lie inside memory.
pub open spec fn fetch_spec(s: MachineView) -> (MachineView, Result<u16, Chip8Error>) {
    if s.pc + 1 >= MEMORY_SIZE {
        (s, Err(Chip8Error::MemoryOutOfRange(s.pc)))
    } else {
        (MachineView { pc: (s.pc + 2) as u16, ..s }, Ok(word_at(s.memory, s.pc as int)))
    }
}

/// One instruction cycle: fetch, decode, execute. `random` is the byte that
/// `Cxkk` masks.
pub open spec fn step_spec(s: MachineView, random: u8) -> (MachineView, Result<(), Chip8Error>) {
    let (s1, fetched) = fetch_spec(s);
    match fetched {
        Err(e) => (s1, Err(e)),
        Ok(op) => match decode_spec(op) {
            Err(e) => (s1, Err(e)),
            Ok(ins) => execute_spec(s1, ins, random),
        },
    }
}

} // verus!
