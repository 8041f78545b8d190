//! A Game Boy (Sharp LR35902) CPU core: register file, flag handling,
//! instruction decoding and instruction execution, each with a contract
//! stated over a mathematical model of the machine.

mod bitfield;
mod exec;
pub mod greeting;
pub mod instruction;
pub mod laws;
pub mod machine;
pub mod op_laws;
pub mod registers;
pub mod run;
pub mod semantics;
pub mod state;

pub use greeting::say_hello;
pub use instruction::{DecodeError, Instruction};
pub use machine::Machine;
pub use registers::{Cond, Flag, R16, R8};
pub use state::MachineState;
