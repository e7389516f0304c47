//! Error taxonomies for decoding and execution, and memory access classifications.
use vstd::prelude::*;
use crate::base::text::{dec_text, hex_text, push_dec, push_hex};

verus! {

/// Memory access permissions and classification.
#[derive(Copy, Clone, Debug, PartialEq, Eq, Structural, Hash)]
pub enum AccessKind {
    /// Read access.
    Read,
    /// Write access.
    Write,
    /// Instruction execution/fetch access.
    Execute,
}

impl AccessKind {
    /// The name of the access kind.
    pub open spec fn text(self) -> Seq<char> {
        match self {
            AccessKind::Read => "Read"@,
            AccessKind::Write => "Write"@,
            AccessKind::Execute => "Execute"@,
        }
    }

    /// Renders the name of the access kind.
    pub fn to_string(&self) -> (r: String)
        ensures
            r@ == self.text(),
    {
        match self {
            AccessKind::Read => String::from_str("Read"),
            AccessKind::Write => String::from_str("Write"),
            AccessKind::Execute => String::from_str("Execute"),
        }
    }
}

/// Standard atomic memory ordering semantics (aligned with C11 / Rust `core::sync::atomic`).
#[derive(Copy, Clone, Debug, PartialEq, Eq, Structural, Hash)]
pub enum MemoryOrdering {
    /// Relaxed ordering.
    Relaxed,
    /// Acquire ordering.
    Acquire,
    /// Release ordering.
    Release,
    /// Acquire-Release ordering.
    AcqRel,
    /// Sequentially consistent ordering.
    SeqCst,
}

impl MemoryOrdering {
    /// The name of the ordering.
    pub open spec fn text(self) -> Seq<char> {
        match self {
            MemoryOrdering::Relaxed => "Relaxed"@,
            MemoryOrdering::Acquire => "Acquire"@,
            MemoryOrdering::Release => "Release"@,
            MemoryOrdering::AcqRel => "AcqRel"@,
            MemoryOrdering::SeqCst => "SeqCst"@,
        }
    }

    /// Renders the name of the ordering.
    pub fn to_string(&self) -> (r: String)
        ensures
            r@ == self.text(),
    {
        match self {
            MemoryOrdering::Relaxed => String::from_str("Relaxed"),
            MemoryOrdering::Acquire => String::from_str("Acquire"),
            MemoryOrdering::Release => String::from_str("Release"),
            MemoryOrdering::AcqRel => String::from_str("AcqRel"),
            MemoryOrdering::SeqCst => String::from_str("SeqCst"),
        }
    }
}

/// Errors occurring during instruction decoding.
#[derive(Copy, Clone, Debug, PartialEq, Eq, Structural, Hash)]
pub enum DecodeError {
    /// Raw 32-bit opcode does not match any valid AArch64 instruction encoding.
    Undefined(u32),
    /// Opcode matches an architectural reserved encoding space.
    Reserved(u32),
    /// Opcode matches an unallocated encoding space within an instruction class.
    Unallocated(u32),
    /// Instruction fields contain an illegal or unpredictable combination of operands.
    Unpredictable(u32),
}

/// `0x` followed by the eight hexadecimal digits of a 32-bit opcode.
pub open spec fn opcode_text(op: u32) -> Seq<char> {
    "0x"@ + hex_text(op as nat, 8)
}

/// `0x` followed by the sixteen hexadecimal digits of a 64-bit address.
pub open spec fn address_text(a: u64) -> Seq<char> {
    "0x"@ + hex_text(a as nat, 16)
}

fn push_str(s: &mut String, t: &str)
    ensures
        final(s)@ == old(s)@ + t@,
{
    s.append(t);
}

impl DecodeError {
    /// The message describing the error.
    pub open spec fn text(self) -> Seq<char> {
        match self {
            DecodeError::Undefined(op) => "Undefined instruction opcode: "@ + opcode_text(op),
            DecodeError::Reserved(op) => "Reserved instruction opcode: "@ + opcode_text(op),
            DecodeError::Unallocated(op) => "Unallocated instruction opcode: "@ + opcode_text(op),
            DecodeError::Unpredictable(op) => "Unpredictable instruction encoding: "@
                + opcode_text(op),
        }
    }

    /// Renders the message describing the error.
    pub fn to_string(&self) -> (r: String)
        ensures
            r@ == self.text(),
    {
        let (mut s, op) = match *self {
            DecodeError::Undefined(op) => (String::from_str("Undefined instruction opcode: "), op),
            DecodeError::Reserved(op) => (String::from_str("Reserved instruction opcode: "), op),
            DecodeError::Unallocated(op) => (
                String::from_str("Unallocated instruction opcode: "),
                op,
            ),
            DecodeError::Unpredictable(op) => (
                String::from_str("Unpredictable instruction encoding: "),
                op,
            ),
        };
        push_str(&mut s, "0x");
        push_hex(&mut s, op as u64, 8);
        proof {
            assert(s@ =~= self.text());
        }
        s
    }
}

/// Errors occurring during instruction execution.
#[derive(Copy, Clone, Debug, PartialEq, Eq, Structural, Hash)]
pub enum ExecError {
    /// Failed memory access due to unmapped memory, page fault, or protection violation.
    MemoryFault {
        /// Faulting memory address.
        address: u64,
        /// Access type (Read, Write, or Execute).
        kind: AccessKind,
    },
    /// Memory access violated hardware or software alignment restrictions.
    AlignmentFault {
        /// Faulting memory address.
        address: u64,
        /// Required alignment in bytes.
        required_alignment: usize,
    },
    /// Program Counter was set to an unaligned address (AArch64 requires 4-byte alignment).
    UnalignedPc(u64),
    /// Instruction decoding failed.
    Decode(DecodeError),
    /// Instruction is architecturally undefined.
    UndefinedInstruction(u32),
    /// Valid instruction encoding that is not yet implemented by the interpreter.
    UnimplementedInstruction(u32),
    /// Encountered a breakpoint instruction (BRK / HLT).
    Breakpoint {
        /// Immediate comment field in breakpoint encoding.
        comment: u16,
    },
    /// Software single-step completed successfully.
    StepComplete,
    /// Atomic operation is unsupported on this backend.
    AtomicNotSupported,
    /// Exclusive monitor operations (LDXR/STXR) unsupported on this backend.
    ExclusiveMonitorNotSupported,
    /// SIMD / Floating-point operations unsupported on this backend.
    SimdNotSupported,
    /// Internal logical invariant violated (replaces panics).
    InternalInvariantViolated,
}

impl From<DecodeError> for ExecError {
    /// Wraps a decoding failure as an execution error.
    fn from(err: DecodeError) -> (r: Self) {
        ExecError::Decode(err)
    }
}

impl vstd::std_specs::convert::FromSpecImpl<DecodeError> for ExecError {
    open spec fn obeys_from_spec() -> bool {
        true
    }

    open spec fn from_spec(v: DecodeError) -> Self {
        ExecError::Decode(v)
    }
}

impl ExecError {
    /// The message describing the error.
    pub open spec fn text(self) -> Seq<char> {
        match self {
            ExecError::MemoryFault { address, kind } => "Memory fault at address "@
                + address_text(address) + " during "@ + kind.text(),
            ExecError::AlignmentFault { address, required_alignment } =>
                "Alignment fault at address "@ + address_text(address) + " (required alignment: "@
                + dec_text(required_alignment as nat) + " bytes)"@,
            ExecError::UnalignedPc(pc) => "Unaligned Program Counter: "@ + address_text(pc),
            ExecError::Decode(err) => "Decode error: "@ + err.text(),
            ExecError::UndefinedInstruction(op) => "Undefined instruction opcode: "@
                + opcode_text(op),
            ExecError::UnimplementedInstruction(op) => "Unimplemented instruction opcode: "@
                + opcode_text(op),
            ExecError::Breakpoint { comment } => "Breakpoint instruction executed (comment: 0x"@
                + hex_text(comment as nat, 4) + ")"@,
            ExecError::StepComplete => "Step completed"@,
            ExecError::AtomicNotSupported => "Atomic operations not supported"@,
            ExecError::ExclusiveMonitorNotSupported => "Exclusive monitor operations not supported"@,
            ExecError::SimdNotSupported => "SIMD/FP operations not supported"@,
            ExecError::InternalInvariantViolated => "Internal execution invariant violated"@,
        }
    }

    /// Renders the message describing the error.
    pub fn to_string(&self) -> (r: String)
        ensures
            r@ == self.text(),
    {
        match *self {
            ExecError::MemoryFault { address, kind } => {
                let mut s = String::from_str("Memory fault at address ");
                push_str(&mut s, "0x");
                push_hex(&mut s, address, 16);
                push_str(&mut s, " during ");
                let k = kind.to_string();
                push_str(&mut s, k.as_str());
                proof {
                    assert(s@ =~= self.text());
                }
                s
            },
            ExecError::AlignmentFault { address, required_alignment } => {
                let mut s = String::from_str("Alignment fault at address ");
                push_str(&mut s, "0x");
                push_hex(&mut s, address, 16);
                push_str(&mut s, " (required alignment: ");
                push_dec(&mut s, required_alignment as u64);
                push_str(&mut s, " bytes)");
                proof {
                    assert(s@ =~= self.text());
                }
                s
            },
            ExecError::UnalignedPc(pc) => {
                let mut s = String::from_str("Unaligned Program Counter: ");
                push_str(&mut s, "0x");
                push_hex(&mut s, pc, 16);
                proof {
                    assert(s@ =~= self.text());
                }
                s
            },
            ExecError::Decode(err) => {
                let mut s = String::from_str("Decode error: ");
                let e = err.to_string();
                push_str(&mut s, e.as_str());
                s
            },
            ExecError::UndefinedInstruction(op) => {
                let mut s = String::from_str("Undefined instruction opcode: ");
                push_str(&mut s, "0x");
                push_hex(&mut s, op as u64, 8);
                proof {
                    assert(s@ =~= self.text());
                }
                s
            },
            ExecError::UnimplementedInstruction(op) => {
                let mut s = String::from_str("Unimplemented instruction opcode: ");
                push_str(&mut s, "0x");
                push_hex(&mut s, op as u64, 8);
                proof {
                    assert(s@ =~= self.text());
                }
                s
            },
            ExecError::Breakpoint { comment } => {
                let mut s = String::from_str("Breakpoint instruction executed (comment: 0x");
                push_hex(&mut s, comment as u64, 4);
                push_str(&mut s, ")");
                s
            },
            ExecError::StepComplete => String::from_str("Step completed"),
            ExecError::AtomicNotSupported => String::from_str("Atomic operations not supported"),
            ExecError::ExclusiveMonitorNotSupported => String::from_str(
                "Exclusive monitor operations not supported",
            ),
            ExecError::SimdNotSupported => String::from_str("SIMD/FP operations not supported"),
            ExecError::InternalInvariantViolated => String::from_str(
                "Internal execution invariant violated",
            ),
        }
    }

    /// The underlying decoding failure, for `Decode`; `None` for every other error.
    pub fn source(&self) -> (r: Option<DecodeError>)
        ensures
            r == (match *self {
                ExecError::Decode(err) => Some(err),
                _ => None,
            }),
    {
        match *self {
            ExecError::Decode(err) => Some(err),
            _ => None,
        }
    }
}

} // verus!
