//! Bit helpers, error taxonomies, register representations and backend interfaces.
pub mod bits;
pub mod error;
pub mod reg;
pub mod text;
pub mod traits;

pub use bits::{extract_bits, sign_extend};
pub use error::{AccessKind, DecodeError, ExecError, MemoryOrdering};
pub use reg::{CoreReg, Gpr, Nzcv, VReg};
pub use traits::{AsyncSignalSafe, MemoryInterface, RegisterBank};
