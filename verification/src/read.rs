//! The read-capability bridge: a register that wants read behaviour requires
//! its backing bus to support a raw transfer for the register's logical
//! value type, and the capability implementation is a thin forwarding call
//! into that raw transfer.
use vstd::prelude::*;

use crate::bus::Bus;
use crate::register_trait::DataType;
use crate::register_trait::Register;
use crate::register_trait::UIntLike;

verus! {

/// A register that can be read.
pub trait Read: Register {
    /// Reads the register's current value.  What comes back depends on the
    /// hardware behind the bus, so nothing is promised of it.
    fn read(self) -> <Self::DataType as DataType>::Value;
}

/// A bus that implements `BusRead<T>` can back [`Read`] implementations with
/// value type `T`.  Other transports implement this on their own address
/// types so that reading works with them as well.
pub trait BusRead<T: UIntLike>: Bus<T> {
    /// The raw transfer.  The caller must ensure that a register of type `T`
    /// really sits at this address, and must satisfy any additional
    /// invariants that register's capability declares (a register may be
    /// documented as having a side effect on read).
    fn read(self) -> T;
}

} // verus!
