//! A64 instruction decoding and execution, parameterized over register and
//! memory backends.
pub mod base;
pub mod decode;
pub mod exec;
pub mod test_utils;

pub use crate::base::bits::{extract_bits, sign_extend};
pub use crate::base::error::{AccessKind, DecodeError, ExecError, MemoryOrdering};
pub use crate::base::reg::{CoreReg, Gpr, Nzcv, VReg};
pub use crate::base::traits::{AsyncSignalSafe, MemoryInterface, RegisterBank};
pub use crate::decode::{Decoder, Instruction};
pub use crate::exec::interpreter::Interpreter;
pub use crate::test_utils::noop_mem::NoopMem;
pub use crate::test_utils::virtual_regs::VirtualRegs;
