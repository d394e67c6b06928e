//! The privilege boundary of a small microkernel for a single-core
//! microcontroller with two privilege rings and two stack pointers.
//!
//! The processor, the memory map and the console device are explicit values,
//! so every rule of the boundary is a function with a contract: the one-way
//! privilege drop, the software-trap transport with its register
//! convention, the dispatcher, and the access check that a privileged handler
//! owes to every pointer it is handed.

pub mod context;
pub mod privilege;
pub mod syscall;
pub mod syscall_ll;
pub mod usart_ll;
