//! The verified core of a small batch / multitasking kernel for RISC-V:
//! the application table, the round-robin task manager, task and trap
//! contexts, the timer arithmetic and the coloured console text.

pub mod config;
pub mod task;
pub mod batch;
pub mod trap;
pub mod timer;
pub mod console;
pub mod syscall;
