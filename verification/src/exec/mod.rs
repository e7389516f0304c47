//! AArch64 execution engine and transactional interpreter.
pub mod interpreter;

pub use interpreter::Interpreter;
