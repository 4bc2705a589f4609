//! A CHIP-8 virtual machine core: memory, frame buffer, timers and the
//! instruction interpreter, with every instruction's effect stated as a
//! contract.

pub mod cpu;
pub mod display;
pub mod error;
pub mod key;
pub mod machine;
pub mod memory;
pub mod opcode;
pub mod theorems;
pub mod timer;

pub use cpu::{Cpu, CpuView, STACK_EMPTY};
pub use display::{Display, HEIGHT, WIDTH};
pub use error::Chip8Error;
pub use key::Key;
pub use machine::{Chip8Core, DebugSnapshot};
pub use memory::{Ram, Rom, FONT_START, MEMORY_SIZE, PROGRAM_START};
pub use opcode::{decode, Instruction};
pub use timer::{cycle_sleep_nanos, TIMER_PERIOD_NANOS};
