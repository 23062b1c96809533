//! The conditions that stop the machine.
//!
//! Nothing here is recoverable: each fault names a feature the core does not
//! model, and continuing past one would corrupt architectural state.

use vstd::prelude::*;

verus! {

/// Direction of a memory access.
#[derive(Clone, Copy, Debug, PartialEq, Eq)]
pub enum Access {
    Load,
    Store,
}

#[derive(Clone, Copy, Debug, PartialEq, Eq)]
pub enum Fault {
    /// Bits [27:24] of the instruction select a family with no execution
    /// unit.
    UnimplementedInstructionClass { class: u8 },
    /// The data-processing unit was asked for an operation it does not
    /// perform.
    UnimplementedOperation { opcode: u8 },
    /// The access lands where the memory controller has nothing to offer:
    /// a peripheral or alias region, a word past the end of the installed
    /// block, or any store. `address` is the decoded, word-aligned address.
    UnimplementedMemoryRegion { address: u32, access: Access },
}

} // verus!
