//! The memory provenance tags of the target IR's pointer types.

use vstd::prelude::*;

verus! {

/// A memory region tag. Pointer types of the target IR are qualified by the
/// region the pointee lives in, which alias analysis and instruction
/// selection rely on.
#[derive(Clone, Copy, Debug, PartialEq, Eq, Structural)]
pub enum AddressSpace {
    /// Compiler-managed local and spill storage.
    Stack,
    /// The contract's linear scratch memory, holding call input and output
    /// buffers.
    Heap,
    /// Host-provided memory not owned by the contract's heap.
    Generic,
}

impl AddressSpace {
    /// The numeric provenance tag the code-generation library attaches to
    /// pointer types of this region.
    pub open spec fn spec_tag(self) -> u32 {
        match self {
            AddressSpace::Stack => 0,
            AddressSpace::Heap => 1,
            AddressSpace::Generic => 3,
        }
    }

    /// Returns the numeric provenance tag of this region.
    pub fn tag(self) -> (r: u32)
        ensures
            r == self.spec_tag(),
    {
        match self {
            AddressSpace::Stack => 0,
            AddressSpace::Heap => 1,
            AddressSpace::Generic => 3,
        }
    }
}

} // verus!
