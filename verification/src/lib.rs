//! An interpreter for the CHIP-8 virtual machine: two-byte instructions, 4 KB of memory,
//! sixteen byte registers, a call stack, a monochrome frame buffer on which sprites are
//! drawn by exclusive or, two timers that count down, and sixteen keys.
//!
//! `cpu` carries out single instructions on the parts of the machine; `machine` says as
//! plain mathematics what each instruction does; `interpreter` holds one machine and
//! drives it cycle by cycle. A frontend supplies the renderer, the keypad and the source
//! of random bytes through the traits of `traits`.

pub mod bus;
pub mod cpu;
pub mod delay_timer;
pub mod font;
pub mod instruction;
pub mod interpreter;
pub mod keypad;
pub mod machine;
pub mod math;
pub mod memory;
pub mod out_of_bounds_error;
pub mod program_counter;
pub mod random;
pub mod rendered_memory;
pub mod screen_memory;
pub mod sound_timer;
pub mod stack;
pub mod text;
pub mod traits;
pub mod variable_registers;

pub use bus::Bus;
pub use cpu::{execute, execute_given, ExecuteResult, ExecutionState};
pub use delay_timer::DelayTimer;
pub use font::Font;
pub use instruction::{Instruction, InstructionError};
pub use interpreter::{
    Interpreter, InterpreterSnapshot, PartialDisassembleOptions, PartialDisassembleSnapshot,
};
pub use keypad::Keypad;
pub use math::{count16, count8, Count16, Count8};
pub use memory::{Memory, MemoryFault, PartialSnapshot};
pub use out_of_bounds_error::OutOfBoundsError;
pub use program_counter::ProgramCounter;
pub use random::Random;
pub use rendered_memory::fmt_rendered_memory;
pub use screen_memory::ScreenMemory;
pub use sound_timer::SoundTimer;
pub use stack::Stack;
pub use variable_registers::VariableRegisters;
