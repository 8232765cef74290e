mod display;
mod error;
mod font;
mod instruction;
pub mod laws;
mod machine;
pub mod semantics;

pub use display::draw_sprite;
pub use error::Chip8Error;
pub use font::{FONT, FONT_SIZE, FONT_START};
pub use instruction::{decode, instruction_group, Instruction, InstructionGroup};
pub use machine::Chip8;
pub use semantics::{
    MachineView, MAX_IMAGE_SIZE, MEMORY_SIZE, NUM_KEYS, PROGRAM_START, STACK_SIZE, VIDEO_HEIGHT,
    VIDEO_SIZE, VIDEO_WIDTH,
};
