//! Simple register and memory backends for tests and execution harnesses.
pub mod noop_mem;
pub mod virtual_regs;

pub use noop_mem::NoopMem;
pub use virtual_regs::VirtualRegs;
