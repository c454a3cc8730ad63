//! The write-capability bridge: a register that wants write behaviour
//! requires its backing bus to support a raw transfer for the register's
//! logical value type, and the capability implementation is a thin
//! forwarding call into that raw transfer.
use vstd::prelude::*;

use crate::bus::Bus;
use crate::register_trait::DataType;
use crate::register_trait::Register;
use crate::register_trait::UIntLike;

verus! {

/// A register that can be written.
pub trait Write: Register {
    /// Writes a value to the register.  What the hardware does with it is
    /// the transport's business, so nothing is promised of it.
    fn write(self, value: <Self::DataType as DataType>::Value);
}

/// A bus that implements `BusWrite<T>` can back [`Write`] implementations
/// with value type `T`.  Other transports implement this on their own
/// address types so that writing works with them as well.
pub trait BusWrite<T: UIntLike>: Bus<T> {
    /// The raw transfer.  The caller must ensure that a register of type `T`
    /// really sits at this address, and must satisfy any additional
    /// invariants that register's capability declares (a register may be
    /// documented as having a side effect on write).
    fn write(self, value: T);
}

} // verus!
