//! The memory-mapped bus for 32-bit systems.
use vstd::prelude::*;

use crate::bus::Address;
use crate::bus::Bus;

verus! {

/// MMIO register bus for 32-bit systems.  The wrapped value is the byte
/// position of the register in the memory-mapped address space.
#[derive(Clone, Copy)]
pub struct Mmio32(pub usize);

impl Address for Mmio32 {
    open spec fn spec_addr(self) -> int {
        self.0 as int
    }

    proof fn lemma_determined_by_spec_addr(a: Self, b: Self) {
    }

    fn byte_add(self, offset: usize) -> (r: Mmio32) {
        Mmio32(self.0 + offset)
    }
}

impl Bus<u8> for Mmio32 {
    open spec fn spec_padded_size() -> int {
        1
    }

    fn padded_size() -> usize {
        1
    }
}

impl Bus<u16> for Mmio32 {
    open spec fn spec_padded_size() -> int {
        2
    }

    fn padded_size() -> usize {
        2
    }
}

impl Bus<u32> for Mmio32 {
    open spec fn spec_padded_size() -> int {
        4
    }

    fn padded_size() -> usize {
        4
    }
}

impl Bus<u64> for Mmio32 {
    open spec fn spec_padded_size() -> int {
        8
    }

    fn padded_size() -> usize {
        8
    }
}

impl Bus<u128> for Mmio32 {
    open spec fn spec_padded_size() -> int {
        16
    }

    fn padded_size() -> usize {
        16
    }
}

impl Bus<usize> for Mmio32 {
    open spec fn spec_padded_size() -> int {
        4
    }

    fn padded_size() -> usize {
        4
    }
}

} // verus!
