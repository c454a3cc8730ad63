//! The traits that connect a register accessor to the data it carries.
use vstd::prelude::*;

verus! {

/// Marker for the primitive unsigned integer types a bus can transfer.
pub trait UIntLike: Copy + Sized {
}

impl UIntLike for u8 {
}

impl UIntLike for u16 {
}

impl UIntLike for u32 {
}

impl UIntLike for u64 {
}

impl UIntLike for u128 {
}

impl UIntLike for usize {
}

/// Marker for the bitfield description attached to a register's data type.
pub trait RegisterLongName {
}

impl RegisterLongName for () {
}

/// Implemented by every register accessor type.
pub trait Register: Copy {
    /// The data type named in this register's specification.  For register
    /// arrays, this is the innermost data type.
    type DataType: DataType;
}

/// Retrieves information about a register from the type given in its
/// specification.
pub trait DataType {
    /// The register's value type: the type passed over the bus when the
    /// register is accessed.
    type Value: UIntLike;

    /// The bitfield used when data is read from this register.
    type Read: RegisterLongName;

    /// The bitfield used when data is written to this register.
    type Write: RegisterLongName;
}

impl<U: UIntLike> DataType for U {
    type Value = U;

    type Read = ();

    type Write = ();
}

} // verus!
