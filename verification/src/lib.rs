//! A CHIP-8 virtual machine whose instruction semantics are stated as a
//! mathematical step function and proved of the executable interpreter.
//!
//! [`Chip8`] is the machine. [`Chip8::cycle`] runs one instruction and
//! [`Chip8::cycle_with`] does the same with the random byte given by the
//! caller. What a cycle does is said by [`MachineState::step`] on
//! [`MachineState`], the machine as a mathematical value, and the module
//! [`laws`] states what follows from it.
//!
//! The choices that the instruction set leaves open are made as follows.
//!
//! * A cycle that fails reports a [`Chip8Error`] and leaves the machine
//!   exactly as it was: program counter, stack, registers and timers.
//! * A word that stands for no instruction is illegal, except in the `F`
//!   family, where it is ignored: the cycle does nothing but move on.
//! * Memory is never read or written beyond its 4096 bytes: a fetch or an
//!   access through the index register that would do so fails. The index
//!   register itself has sixteen bits and wraps there.
//! * A key test with a register above fifteen fails.
//! * The shifts read `Vx` and ignore `Vy`, unless
//!   [`Chip8::set_shift_source`] says otherwise.
//! * `8xy4` writes the sum and then the carry; the subtractions and the
//!   shifts write the flag and then the result. This matters where `x` is
//!   the flag register.
//! * The timers count down once in each cycle, also while `Fx0A` waits.

pub mod config;
pub mod display;
pub mod error;
pub mod font;
pub mod hexdump;
pub mod instruction;
pub mod keymap;
pub mod laws;
pub mod machine;
pub mod model;
mod random;

pub use config::Config;
pub use error::Chip8Error;
pub use instruction::{decode, Instruction};
pub use machine::Chip8;
pub use model::{MachineState, ShiftSource};
