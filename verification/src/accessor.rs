//! A concrete register accessor for a byte-wide register, in the exact shape
//! the code generator emits for a leaf register definition: a freely
//! duplicable record holding nothing but the register's address, whose block
//! size is the bus's padded size for the element's value type.  It is the
//! element type with which the register-array machinery is exercised.
use vstd::prelude::*;

use crate::bus::Address;
use crate::bus::Block;
use crate::bus::Bus;
use crate::read::BusRead;
use crate::read::Read;
use crate::register_trait::Register;
use crate::write::BusWrite;
use crate::write::Write;

verus! {

/// An accessor for one byte-wide register on bus `B`.
#[derive(Clone, Copy)]
pub struct U8Register<B: Bus<u8>> {
    pub address: B,
}

impl<B: Bus<u8>> Block for U8Register<B> {
    type Address = B;

    open spec fn spec_size() -> int {
        B::spec_padded_size()
    }

    fn size() -> (r: usize) {
        B::padded_size()
    }

    open spec fn spec_addr(self) -> int {
        self.address.spec_addr()
    }

    proof fn lemma_determined_by_spec_addr(a: Self, b: Self) {
        B::lemma_determined_by_spec_addr(a.address, b.address);
    }

    fn new(address: B) -> (r: U8Register<B>) {
        U8Register { address }
    }
}

impl<B: Bus<u8>> Register for U8Register<B> {
    type DataType = u8;
}

impl<B: Bus<u8> + BusRead<u8>> Read for U8Register<B> {
    /// The thin forwarding call every read capability amounts to: the bus's
    /// raw transfer at this accessor's address.
    fn read(self) -> u8 {
        self.address.read()
    }
}

impl<B: Bus<u8> + BusWrite<u8>> Write for U8Register<B> {
    /// The thin forwarding call every write capability amounts to: the bus's
    /// raw transfer at this accessor's address.
    fn write(self, value: u8) {
        self.address.write(value)
    }
}

} // verus!
