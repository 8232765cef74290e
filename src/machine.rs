use vstd::prelude::*;

use crate::error::Chip8Error;
use crate::font::{FONT, FONT_SIZE, FONT_START};
use crate::display::draw_sprite;
use crate::instruction::{
    decode, group_of, instruction_group, operands_in_range, Instruction, InstructionGroup,
};
use crate::semantics::{
    arithmetic_spec, control_spec, execute_spec, fetch_spec, first_pressed, first_pressed_from,
    initial_state, load_spec, memory_spec, registers_spec, step_spec, tick_spec, view_wf,
    MachineView, MAX_IMAGE_SIZE, MEMORY_SIZE, NUM_KEYS, PROGRAM_START, STACK_SIZE, VIDEO_HEIGHT,
    VIDEO_WIDTH,
};

verus! {

/// Relies on rand::random: a byte drawn from the thread-local generator. Any
/// byte may come back.
#[verifier::external_body]
fn random_byte() -> u8 {
    rand::random::<u8>()
}

/// The wrapping byte operations as arithmetic modulo 256.
proof fn lemma_wrapping_bytes(a: u8, b: u8)
    ensures
        a.wrapping_add(b) == ((a + b) % 256) as u8,
        a.wrapping_sub(b) == ((a - b + 256) % 256) as u8,
        a.wrapping_mul(2) == ((a * 2) % 256) as u8,
{
}

/// Copies `registers[0..=last]` into `memory` from `start` on.
fn store_registers(memory: &mut [u8; 4096], registers: &[u8; 16], start: usize, last: usize)
    requires
        last < 16,
        start + last < MEMORY_SIZE,
    ensures
        final(memory)@ == Seq::new(
            MEMORY_SIZE as nat,
            |a: int|
                if start <= a <= start + last {
                    registers@[a - start]
                } else {
                    old(memory)@[a]
                },
        ),
{
    let ghost m0 = memory@;
    let mut k: usize = 0;
    while k <= last
        invariant
            k <= last + 1,
            last < 16,
            start + last < MEMORY_SIZE,
            memory@.len() == MEMORY_SIZE,
            forall|a: int|
                0 <= a < MEMORY_SIZE ==> memory@[a] == if start <= a < start + k {
                    registers@[a - start]
                } else {
                    m0[a]
                },
        decreases last + 1 - k,
    {
        memory[start + k] = registers[k];
        k += 1;
    }
    assert(memory@ =~= Seq::new(
        MEMORY_SIZE as nat,
        |a: int|
            if start <= a <= start + last {
                registers@[a - start]
            } else {
                m0[a]
            },
    ));
}

/// Copies `memory[start..=start + last]` into `registers[0..=last]`.
fn load_registers(registers: &mut [u8; 16], memory: &[u8; 4096], start: usize, last: usize)
    requires
        last < 16,
        start + last < MEMORY_SIZE,
    ensures
        final(registers)@ == Seq::new(
            16,
            |r: int|
                if r <= last {
                    memory@[start + r]
                } else {
                    old(registers)@[r]
                },
        ),
{
    let ghost r0 = registers@;
    let mut k: usize = 0;
    while k <= last
        invariant
            k <= last + 1,
            last < 16,
            start + last < MEMORY_SIZE,
            registers@.len() == 16,
            forall|r: int|
                0 <= r < 16 ==> registers@[r] == if r < k {
                    memory@[start + r]
                } else {
                    r0[r]
                },
        decreases last + 1 - k,
    {
        registers[k] = memory[start + k];
        k += 1;
    }
    assert(registers@ =~= Seq::new(
        16,
        |r: int|
            if r <= last {
                memory@[start + r]
            } else {
                r0[r]
            },
    ));
}

/// A CHIP-8 machine: memory, registers, call stack, timers, keypad and framebuffer.
pub struct Chip8 {
    registers: [u8; 16],
    memory: [u8; 4096],
    program_counter: u16,
    index: u16,
    stack: [u16; 16],
    stack_pointer: u8,
    delay_timer: u8,
    sound_timer: u8,
    keypad: [bool; 16],
    video: [bool; 2048],
    redraw: bool,
}

impl View for Chip8 {
    type V = MachineView;

    closed spec fn view(&self) -> MachineView {
        MachineView {
            registers: self.registers@,
            memory: self.memory@,
            pc: self.program_counter,
            index: self.index,
            stack: self.stack@,
            sp: self.stack_pointer,
            delay: self.delay_timer,
            sound: self.sound_timer,
            keypad: self.keypad@,
            video: self.video@,
            redraw: self.redraw,
        }
    }
}

impl Chip8 {
    /// The machine's invariant: the stack pointer stays within the stack.
    pub open spec fn wf(&self) -> bool {
        view_wf(self@)
    }

    /// A fresh machine: all zero, glyphs in place, program counter at the
    /// program start, and `redraw` raised so that the first frame is painted.
    pub fn new() -> (r: Chip8)
        ensures
            r.wf(),
            r@ == initial_state(),
    {
        let mut memory = [0u8; 4096];
        let mut i: usize = 0;
        while i < FONT_SIZE
            invariant
                i <= FONT_SIZE,
                memory@.len() == MEMORY_SIZE,
                forall|a: int|
                    0 <= a < MEMORY_SIZE ==> memory@[a] == if FONT_START <= a < FONT_START + i {
                        FONT@[a - FONT_START]
                    } else {
                        0u8
                    },
            decreases FONT_SIZE - i,
        {
            memory[FONT_START as usize + i] = FONT[i];
            i += 1;
        }
        let r = Chip8 {
            registers: [0u8; 16],
            memory,
            program_counter: PROGRAM_START,
            index: 0,
            stack: [0u16; 16],
            stack_pointer: 0,
            delay_timer: 0,
            sound_timer: 0,
            keypad: [false; 16],
            video: [false; 2048],
            redraw: true,
        };
        assert(r@.registers =~= initial_state().registers);
        assert(r@.memory =~= initial_state().memory);
        assert(r@.stack =~= initial_state().stack);
        assert(r@.keypad =~= initial_state().keypad);
        assert(r@.video =~= initial_state().video);
        r
    }

    /// Copies a program image into memory from the program start on. An image
    /// longer than the space left is refused and nothing changes.
    pub fn load(&mut self, image: &[u8]) -> (r: Result<(), Chip8Error>)
        requires
            old(self).wf(),
        ensures
            final(self).wf(),
            (final(self)@, r) == load_spec(old(self)@, image@),
    {
        if image.len() > MAX_IMAGE_SIZE {
            return Err(Chip8Error::ImageTooLarge);
        }
        let ghost s0 = self@;
        let mut i: usize = 0;
        while i < image.len()
            invariant
                i <= image@.len() <= MAX_IMAGE_SIZE,
                self.wf(),
                self@ == (MachineView { memory: self@.memory, ..s0 }),
                forall|a: int|
                    0 <= a < MEMORY_SIZE ==> self@.memory[a] == if PROGRAM_START <= a
                        < PROGRAM_START + i {
                        image@[a - PROGRAM_START]
                    } else {
                        s0.memory[a]
                    },
            decreases image@.len() - i,
        {
            self.memory[PROGRAM_START as usize + i] = image[i];
            i += 1;
        }
        assert(self@.memory =~= load_spec(s0, image@).0.memory);
        Ok(())
    }

    /// Moves each timer one step towards zero; a timer at zero stays there.
    pub fn decrement_timers(&mut self)
        requires
            old(self).wf(),
        ensures
            final(self).wf(),
            final(self)@ == tick_spec(old(self)@),
    {
        if self.delay_timer > 0 {
            self.delay_timer -= 1;
        }
        if self.sound_timer > 0 {
            self.sound_timer -= 1;
        }
    }

    /// Records key `key` as pressed or released.
    pub fn set_key(&mut self, key: u8, pressed: bool)
        requires
            old(self).wf(),
            key < NUM_KEYS,
        ensures
            final(self).wf(),
            final(self)@ == (MachineView {
                keypad: old(self)@.keypad.update(key as int, pressed),
                ..old(self)@
            }),
    {
        self.keypad[key as usize] = pressed;
    }

    /// Fetches the big-endian word at the program counter and moves the
    /// counter past it.
    fn mem_read_u16(&mut self) -> (r: Result<u16, Chip8Error>)
        requires
            old(self).wf(),
        ensures
            final(self).wf(),
            (final(self)@, r) == fetch_spec(old(self)@),
    {
        let pc = self.program_counter as usize;
        if pc + 1 >= MEMORY_SIZE {
            return Err(Chip8Error::MemoryOutOfRange(self.program_counter));
        }
        let most_sig_byte = self.memory[pc] as u16;
        let least_sig_byte = self.memory[pc + 1] as u16;
        self.program_counter += 2;
        Ok(most_sig_byte * 256 + least_sig_byte)
    }

    /// The lowest-numbered pressed key, if any.
    fn check_keypad(&self) -> (r: Option<u8>)
        requires
            self.wf(),
        ensures
            r == first_pressed(self@.keypad),
    {
        let mut i: u8 = 0;
        while i < 16
            invariant
                i <= 16,
                self.wf(),
                first_pressed(self@.keypad) == first_pressed_from(self@.keypad, i as int),
            decreases 16 - i,
        {
            if self.keypad[i as usize] {
                return Some(i);
            }
            i += 1;
        }
        None
    }

    /// Executes one decoded instruction; the program counter has already moved
    /// past it.
    fn execute(&mut self, ins: Instruction, random: u8) -> (r: Result<(), Chip8Error>)
        requires
            old(self).wf(),
            operands_in_range(ins),
            2 <= old(self)@.pc <= MEMORY_SIZE,
        ensures
            final(self).wf(),
            (final(self)@, r) == execute_spec(old(self)@, ins, random),
    {
        match instruction_group(ins) {
            InstructionGroup::Control => self.execute_control(ins),
            InstructionGroup::Registers => self.execute_registers(ins, random),
            InstructionGroup::Arithmetic => self.execute_arithmetic(ins),
            InstructionGroup::Memory => self.execute_memory(ins),
        }
    }

    /// Clearing the screen, and the instructions that move the program counter.
    fn execute_control(&mut self, ins: Instruction) -> (r: Result<(), Chip8Error>)
        requires
            old(self).wf(),
            operands_in_range(ins),
            2 <= old(self)@.pc <= MEMORY_SIZE,
            group_of(ins) == InstructionGroup::Control,
        ensures
            final(self).wf(),
            (final(self)@, r) == control_spec(old(self)@, ins),
    {
        match ins {
            Instruction::ClearScreen => {
                self.video = [false; 2048];
                self.redraw = true;
                assert(self@.video =~= control_spec(old(self)@, ins).0.video);
            },
            Instruction::Return => {
                if self.stack_pointer == 0 {
                    return Err(Chip8Error::StackUnderflow);
                }
                self.stack_pointer -= 1;
                self.program_counter = self.stack[self.stack_pointer as usize];
            },
            Instruction::Jump { addr } => {
                self.program_counter = addr;
            },
            Instruction::Call { addr } => {
                if self.stack_pointer as usize >= STACK_SIZE {
                    return Err(Chip8Error::StackOverflow);
                }
                self.stack[self.stack_pointer as usize] = self.program_counter;
                self.stack_pointer += 1;
                self.program_counter = addr;
            },
            Instruction::SkipIfEqualByte { x, byte } => {
                if self.registers[x as usize] == byte {
                    self.program_counter += 2;
                }
            },
            Instruction::SkipIfNotEqualByte { x, byte } => {
                if self.registers[x as usize] != byte {
                    self.program_counter += 2;
                }
            },
            Instruction::SkipIfEqualRegister { x, y } => {
                if self.registers[x as usize] == self.registers[y as usize] {
                    self.program_counter += 2;
                }
            },
            Instruction::SkipIfNotEqualRegister { x, y } => {
                if self.registers[x as usize] != self.registers[y as usize] {
                    self.program_counter += 2;
                }
            },
            Instruction::JumpOffset { addr } => {
                self.program_counter = addr + self.registers[0] as u16;
            },
            Instruction::SkipIfKey { x } => {
                let key = self.registers[x as usize];
                if key as usize >= NUM_KEYS {
                    return Err(Chip8Error::KeyOutOfRange(key));
                }
                if self.keypad[key as usize] {
                    self.program_counter += 2;
                }
            },
            Instruction::SkipIfNotKey { x } => {
                let key = self.registers[x as usize];
                if key as usize >= NUM_KEYS {
                    return Err(Chip8Error::KeyOutOfRange(key));
                }
                if !self.keypad[key as usize] {
                    self.program_counter += 2;
                }
            },
            Instruction::WaitKey { x } => {
                match self.check_keypad() {
                    Some(key) => {
                        self.registers[x as usize] = key;
                    },
                    None => {
                        self.program_counter -= 2;
                    },
                }
            },
            _ => {},
        }
        Ok(())
    }

    /// The instructions that compute into registers and timers.
    fn execute_registers(&mut self, ins: Instruction, random: u8) -> (r: Result<(), Chip8Error>)
        requires
            old(self).wf(),
            operands_in_range(ins),
            2 <= old(self)@.pc <= MEMORY_SIZE,
            group_of(ins) == InstructionGroup::Registers,
        ensures
            final(self).wf(),
            (final(self)@, r) == registers_spec(old(self)@, ins, random),
    {
        match ins {
            Instruction::LoadByte { x, byte } => {
                self.registers[x as usize] = byte;
            },
            Instruction::AddByte { x, byte } => {
                proof {
                    lemma_wrapping_bytes(self.registers[x as int], byte);
                }
                self.registers[x as usize] = self.registers[x as usize].wrapping_add(byte);
            },
            Instruction::Move { x, y } => {
                self.registers[x as usize] = self.registers[y as usize];
            },
            Instruction::Or { x, y } => {
                self.registers[x as usize] = self.registers[x as usize] | self.registers[y as usize];
            },
            Instruction::And { x, y } => {
                self.registers[x as usize] = self.registers[x as usize] & self.registers[y as usize];
            },
            Instruction::Xor { x, y } => {
                self.registers[x as usize] = self.registers[x as usize] ^ self.registers[y as usize];
            },
            Instruction::Random { x, mask } => {
                self.registers[x as usize] = random & mask;
            },
            Instruction::LoadDelay { x } => {
                self.registers[x as usize] = self.delay_timer;
            },
            Instruction::SetDelay { x } => {
                self.delay_timer = self.registers[x as usize];
            },
            Instruction::SetSound { x } => {
                self.sound_timer = self.registers[x as usize];
            },
            _ => {},
        }
        Ok(())
    }

    /// The arithmetic instructions that leave a flag in VF.
    fn execute_arithmetic(&mut self, ins: Instruction) -> (r: Result<(), Chip8Error>)
        requires
            old(self).wf(),
            operands_in_range(ins),
            2 <= old(self)@.pc <= MEMORY_SIZE,
            group_of(ins) == InstructionGroup::Arithmetic,
        ensures
            final(self).wf(),
            (final(self)@, r) == arithmetic_spec(old(self)@, ins),
    {
        match ins {
            Instruction::AddRegister { x, y } => {
                let vx = self.registers[x as usize];
                let vy = self.registers[y as usize];
                proof {
                    lemma_wrapping_bytes(vx, vy);
                    lemma_wrapping_bytes(vy, vx);
                }
                self.registers[0xF] = if vx as u16 + vy as u16 > 0xFF { 1 } else { 0 };
                self.registers[x as usize] = vx.wrapping_add(vy);
            },
            Instruction::Sub { x, y } => {
                let vx = self.registers[x as usize];
                let vy = self.registers[y as usize];
                proof {
                    lemma_wrapping_bytes(vx, vy);
                    lemma_wrapping_bytes(vy, vx);
                }
                self.registers[0xF] = if vx >= vy { 1 } else { 0 };
                self.registers[x as usize] = vx.wrapping_sub(vy);
            },
            Instruction::ShiftRight { x, .. } => {
                let vx = self.registers[x as usize];
                self.registers[0xF] = vx % 2;
                self.registers[x as usize] = vx / 2;
            },
            Instruction::SubReversed { x, y } => {
                let vx = self.registers[x as usize];
                let vy = self.registers[y as usize];
                proof {
                    lemma_wrapping_bytes(vx, vy);
                    lemma_wrapping_bytes(vy, vx);
                }
                self.registers[0xF] = if vy >= vx { 1 } else { 0 };
                self.registers[x as usize] = vy.wrapping_sub(vx);
            },
            Instruction::ShiftLeft { x, .. } => {
                let vx = self.registers[x as usize];
                proof {
                    lemma_wrapping_bytes(vx, 0);
                }
                self.registers[0xF] = vx / 128;
                self.registers[x as usize] = vx.wrapping_mul(2);
            },
            _ => {},
        }
        Ok(())
    }

    /// The instructions that work on the index register and on memory.
    fn execute_memory(&mut self, ins: Instruction) -> (r: Result<(), Chip8Error>)
        requires
            old(self).wf(),
            operands_in_range(ins),
            2 <= old(self)@.pc <= MEMORY_SIZE,
            group_of(ins) == InstructionGroup::Memory,
        ensures
            final(self).wf(),
            (final(self)@, r) == memory_spec(old(self)@, ins),
    {
        match ins {
            Instruction::LoadIndex { addr } => {
                self.index = addr;
            },
            Instruction::Draw { x, y, rows } => {
                if self.index as usize + rows as usize > MEMORY_SIZE {
                    return Err(Chip8Error::MemoryOutOfRange(self.index));
                }
                let vx = self.registers[x as usize];
                let vy = self.registers[y as usize];
                let (collision, changed) = draw_sprite(
                    &mut self.video,
                    &self.memory,
                    self.index as usize,
                    vx,
                    vy,
                    rows,
                );
                if changed {
                    self.redraw = true;
                }
                self.registers[0xF] = if collision { 1 } else { 0 };
            },
            Instruction::AddIndex { x } => {
                self.index = self.index.wrapping_add(self.registers[x as usize] as u16);
            },
            Instruction::LoadGlyph { x } => {
                self.index = FONT_START + 5 * (self.registers[x as usize] % 16) as u16;
            },
            Instruction::StoreBcd { x } => {
                let at = self.index as usize;
                if at + 3 > MEMORY_SIZE {
                    return Err(Chip8Error::MemoryOutOfRange(self.index));
                }
                let value = self.registers[x as usize];
                self.memory[at] = value / 100;
                self.memory[at + 1] = (value / 10) % 10;
                self.memory[at + 2] = value % 10;
            },
            Instruction::StoreRegisters { x } => {
                let at = self.index as usize;
                if at + x as usize + 1 > MEMORY_SIZE {
                    return Err(Chip8Error::MemoryOutOfRange(self.index));
                }
                store_registers(&mut self.memory, &self.registers, at, x as usize);
            },
            Instruction::LoadRegisters { x } => {
                let at = self.index as usize;
                if at + x as usize + 1 > MEMORY_SIZE {
                    return Err(Chip8Error::MemoryOutOfRange(self.index));
                }
                load_registers(&mut self.registers, &self.memory, at, x as usize);
            },
            _ => {},
        }
        Ok(())
    }

    /// Executes one instruction: fetch, decode, execute. `random` is the byte
    /// that `Cxkk` masks; no other instruction reads it.
    pub fn step(&mut self, random: u8) -> (r: Result<(), Chip8Error>)
        requires
            old(self).wf(),
        ensures
            final(self).wf(),
            (final(self)@, r) == step_spec(old(self)@, random),
    {
        let opcode = match self.mem_read_u16() {
            Ok(opcode) => opcode,
            Err(e) => return Err(e),
        };
        match decode(opcode) {
            Ok(ins) => self.execute(ins, random),
            Err(e) => Err(e),
        }
    }

    /// Executes one instruction, with a byte from the random number generator
    /// for `Cxkk`.
    pub fn cycle(&mut self) -> (r: Result<(), Chip8Error>)
        requires
            old(self).wf(),
        ensures
            final(self).wf(),
            exists|random: u8| (final(self)@, r) == step_spec(old(self)@, random),
    {
        let random = random_byte();
        self.step(random)
    }

    /// The framebuffer, row-major: cell (x, y) is at `y * 64 + x`.
    pub fn video(&self) -> (r: &[bool; 2048])
        ensures
            r@ == self@.video,
    {
        &self.video
    }

    /// Whether cell (x, y) of the framebuffer is lit.
    pub fn pixel(&self, x: usize, y: usize) -> (r: bool)
        requires
            x < VIDEO_WIDTH,
            y < VIDEO_HEIGHT,
        ensures
            r == self@.video[y * VIDEO_WIDTH + x],
    {
        self.video[y * VIDEO_WIDTH + x]
    }

    /// Whether a cell has changed since the flag was last cleared.
    pub fn redraw(&self) -> (r: bool)
        ensures
            r == self@.redraw,
    {
        self.redraw
    }

    /// Lowers the redraw flag, once the host has painted the framebuffer.
    pub fn clear_redraw(&mut self)
        requires
            old(self).wf(),
        ensures
            final(self).wf(),
            final(self)@ == (MachineView { redraw: false, ..old(self)@ }),
    {
        self.redraw = false;
    }

    /// The sound timer; the host sounds a tone while it is not zero.
    pub fn sound_timer(&self) -> (r: u8)
        ensures
            r == self@.sound,
    {
        self.sound_timer
    }

    /// The delay timer.
    pub fn delay_timer(&self) -> (r: u8)
        ensures
            r == self@.delay,
    {
        self.delay_timer
    }

    /// Register Vx.
    pub fn register(&self, x: u8) -> (r: u8)
        requires
            x < 16,
        ensures
            r == self@.registers[x as int],
    {
        self.registers[x as usize]
    }

    /// The program counter.
    pub fn program_counter(&self) -> (r: u16)
        ensures
            r == self@.pc,
    {
        self.program_counter
    }

    /// The index register I.
    pub fn index(&self) -> (r: u16)
        ensures
            r == self@.index,
    {
        self.index
    }

    /// The number of return addresses on the stack.
    pub fn stack_pointer(&self) -> (r: u8)
        ensures
            r == self@.sp,
    {
        self.stack_pointer
    }

    /// The whole of memory.
    pub fn memory(&self) -> (r: &[u8; 4096])
        ensures
            r@ == self@.memory,
    {
        &self.memory
    }

    /// Whether key `key` is held down.
    pub fn key_pressed(&self, key: u8) -> (r: bool)
        requires
            key < NUM_KEYS,
        ensures
            r == self@.keypad[key as int],
    {
        self.keypad[key as usize]
    }
}

} // verus!
