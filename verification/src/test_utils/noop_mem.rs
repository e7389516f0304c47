//! Memory backend that faults on every access.
use vstd::prelude::*;
use crate::base::error::{AccessKind, ExecError};
use crate::base::traits::{AsyncSignalSafe, MemoryInterface};

verus! {

/// Memory backend whose every read and write fails with `ExecError::MemoryFault`
/// at the address accessed.
#[derive(Copy, Clone, Debug, PartialEq, Eq, Structural, Hash)]
pub struct NoopMem;

impl Default for NoopMem {
    /// The memory backend (it holds no state).
    fn default() -> (r: Self)
        ensures
            r == NoopMem,
    {
        NoopMem
    }
}

impl MemoryInterface for NoopMem {
    /// Faults: reading is never possible.
    fn read_u8(&mut self, addr: u64) -> (r: Result<u8, ExecError>)
        ensures
            r == Err::<u8, ExecError>(ExecError::MemoryFault { address: addr, kind: AccessKind::Read }),
    {
        Err(ExecError::MemoryFault { address: addr, kind: AccessKind::Read })
    }

    /// Faults: reading is never possible.
    fn read_u16(&mut self, addr: u64) -> (r: Result<u16, ExecError>)
        ensures
            r == Err::<u16, ExecError>(ExecError::MemoryFault { address: addr, kind: AccessKind::Read }),
    {
        Err(ExecError::MemoryFault { address: addr, kind: AccessKind::Read })
    }

    /// Faults: reading is never possible.
    fn read_u32(&mut self, addr: u64) -> (r: Result<u32, ExecError>)
        ensures
            r == Err::<u32, ExecError>(ExecError::MemoryFault { address: addr, kind: AccessKind::Read }),
    {
        Err(ExecError::MemoryFault { address: addr, kind: AccessKind::Read })
    }

    /// Faults: reading is never possible.
    fn read_u64(&mut self, addr: u64) -> (r: Result<u64, ExecError>)
        ensures
            r == Err::<u64, ExecError>(ExecError::MemoryFault { address: addr, kind: AccessKind::Read }),
    {
        Err(ExecError::MemoryFault { address: addr, kind: AccessKind::Read })
    }

    /// Faults: reading is never possible.
    fn read_u128(&mut self, addr: u64) -> (r: Result<u128, ExecError>)
        ensures
            r == Err::<u128, ExecError>(ExecError::MemoryFault { address: addr, kind: AccessKind::Read }),
    {
        Err(ExecError::MemoryFault { address: addr, kind: AccessKind::Read })
    }

    /// Faults: writing is never possible.
    fn write_u8(&mut self, addr: u64, _val: u8) -> (r: Result<(), ExecError>)
        ensures
            r == Err::<(), ExecError>(ExecError::MemoryFault { address: addr, kind: AccessKind::Write }),
    {
        Err(ExecError::MemoryFault { address: addr, kind: AccessKind::Write })
    }

    /// Faults: writing is never possible.
    fn write_u16(&mut self, addr: u64, _val: u16) -> (r: Result<(), ExecError>)
        ensures
            r == Err::<(), ExecError>(ExecError::MemoryFault { address: addr, kind: AccessKind::Write }),
    {
        Err(ExecError::MemoryFault { address: addr, kind: AccessKind::Write })
    }

    /// Faults: writing is never possible.
    fn write_u32(&mut self, addr: u64, _val: u32) -> (r: Result<(), ExecError>)
        ensures
            r == Err::<(), ExecError>(ExecError::MemoryFault { address: addr, kind: AccessKind::Write }),
    {
        Err(ExecError::MemoryFault { address: addr, kind: AccessKind::Write })
    }

    /// Faults: writing is never possible.
    fn write_u64(&mut self, addr: u64, _val: u64) -> (r: Result<(), ExecError>)
        ensures
            r == Err::<(), ExecError>(ExecError::MemoryFault { address: addr, kind: AccessKind::Write }),
    {
        Err(ExecError::MemoryFault { address: addr, kind: AccessKind::Write })
    }

    /// Faults: writing is never possible.
    fn write_u128(&mut self, addr: u64, _val: u128) -> (r: Result<(), ExecError>)
        ensures
            r == Err::<(), ExecError>(ExecError::MemoryFault { address: addr, kind: AccessKind::Write }),
    {
        Err(ExecError::MemoryFault { address: addr, kind: AccessKind::Write })
    }
}

impl AsyncSignalSafe for NoopMem {}

} // verus!
