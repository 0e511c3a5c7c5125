//! The fatal conditions that end a run.

use vstd::prelude::*;
use crate::vm::ops::Op;

verus! {

/// A fatal condition. None is retried: the instruction that meets one has no
/// effect on the general registers or on the memory cells.
#[derive(Debug, PartialEq, Eq, Structural, Clone, Copy)]
pub enum Fault {
    /// An access outside the memory, at the address carried here.
    MemoryFault(usize),
    /// A register number, carried here, above 7.
    InvalidRegister(u8),
    /// The opcode byte, carried here, names no operation.
    InvalidOpcode(u8),
    /// The mode field holds the undefined fourth encoding.
    InvalidAddressingMode,
    /// An operation that the decoder knows and the control unit does not
    /// execute.
    UnsupportedOpcode(Op),
    /// A supervisor call with a service number, carried here, that is not
    /// served.
    UnsupportedService(u32),
    /// A device number, carried here, that names no device, or a device that
    /// cannot serve the direction asked for.
    UnknownDevice(u32),
    /// A division whose divisor is zero.
    DivisionByZero,
    /// A store whose operand is immediate, so that there is no address to
    /// write to.
    InvalidOperand,
    /// An object module with a block that does not hold as many words as its
    /// offsets span.
    MalformedModule,
}

} // verus!
