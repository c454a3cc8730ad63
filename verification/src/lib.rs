//! A register-layout toolkit for embedded software: a small declarative
//! language describes the memory layout of hardware register banks, and a
//! code generator turns each definition into a namespace of capability
//! interfaces and zero-size accessor types.  A small runtime layer supplies
//! the contracts that generated accessors are emitted against: address
//! arithmetic, bus capability queries, block placement and bounds-checked
//! register arrays.

pub mod accessor;
pub mod array;
pub mod ast;
pub mod bus;
pub mod generate;
pub mod mmio;
pub mod parse;
pub mod read;
pub mod register_trait;
pub mod token;
pub mod write;

pub use crate::accessor::U8Register;
pub use crate::array::RealRegisterArray;
pub use crate::array::RegisterArray;
pub use crate::bus::Address;
pub use crate::bus::Block;
pub use crate::bus::Bus;
pub use crate::mmio::Mmio32;
pub use crate::read::BusRead;
pub use crate::read::Read;
pub use crate::register_trait::DataType;
pub use crate::register_trait::Register;
pub use crate::register_trait::RegisterLongName;
pub use crate::register_trait::UIntLike;
pub use crate::write::BusWrite;
pub use crate::write::Write;
