//! Addresses and buses.
//!
//! A register can be reached over different transport mechanisms (memory
//! mapped access, port IO, ...).  Each such mechanism is called a bus, and is
//! modelled by an address type: the *type* of an address says which bus the
//! register sits on, the *value* says which register it is.  An address type
//! implements [`Address`], and in addition implements [`Bus<T>`] for every
//! primitive value type `T` it can transfer.
use vstd::prelude::*;

use crate::register_trait::UIntLike;

verus! {

/// An address on some bus.  An address can be advanced by a byte count,
/// yielding a later address on the same bus.
///
/// An address value is nothing more than a position on the bus: two addresses
/// at the same position are equal (`lemma_determined_by_spec_addr`).
pub trait Address: Copy + Sized {
    /// The position this address designates on its bus, in bytes.
    spec fn spec_addr(self) -> int;

    /// Two addresses at the same position are the same address.
    proof fn lemma_determined_by_spec_addr(a: Self, b: Self)
        requires
            a.spec_addr() == b.spec_addr(),
        ensures
            a == b,
    ;

    /// Adds `offset` bytes to this address.  The caller must keep the result
    /// inside the register span the address was derived from; the bound
    /// proved here is that the advance stays inside the address space.
    fn byte_add(self, offset: usize) -> (r: Self)
        requires
            0 <= self.spec_addr(),
            self.spec_addr() + offset <= usize::MAX,
        ensures
            r.spec_addr() == self.spec_addr() + offset,
    ;
}

/// An address type implements `Bus<T>` for each primitive value type `T` the
/// bus supports.  The padded size is the number of bytes a value of type `T`
/// occupies in the bus's address space; a transport with intra-register
/// padding reports a larger size than the value's natural width.
pub trait Bus<T: UIntLike>: Address {
    /// The size a value of type `T` takes in this bus's address space.
    spec fn spec_padded_size() -> int;

    /// Executable counterpart of [`Bus::spec_padded_size`].
    fn padded_size() -> (r: usize)
        ensures
            r as int == Self::spec_padded_size(),
    ;
}

/// An accessor for a block of registers: a type that occupies a fixed,
/// bus-dependent byte extent and can be constructed at an address.  Every
/// concrete accessor type implements this; it is how register blocks,
/// sub-blocks and array elements are constructed.
pub trait Block: Copy + Sized {
    /// The address type (and with it the bus) this accessor works on.
    type Address: Address;

    /// The number of bytes of address space this block occupies.
    spec fn spec_size() -> int;

    /// Executable counterpart of [`Block::spec_size`].
    fn size() -> (r: usize)
        requires
            Self::spec_size() <= usize::MAX,
        ensures
            r as int == Self::spec_size(),
    ;

    /// The position of this accessor's base address on the bus.
    spec fn spec_addr(self) -> int;

    /// An accessor is a freely duplicable descriptor of an address: two
    /// accessors of the same type at the same position are equal.
    proof fn lemma_determined_by_spec_addr(a: Self, b: Self)
        requires
            a.spec_addr() == b.spec_addr(),
        ensures
            a == b,
    ;

    /// Constructs an accessor for the block of registers at `address`.  The
    /// caller must ensure that `address` really points at registers on this
    /// bus with the layout this type describes.
    fn new(address: Self::Address) -> (r: Self)
        ensures
            r.spec_addr() == address.spec_addr(),
    ;
}

} // verus!
verus! {

/// Constructs the accessor for one field of a register block: the block's
/// base address, advanced by the field's resolved byte offset, with the
/// field's accessor type constructed there.  The caller must ensure, as with
/// [`Block::new`], that registers with the field's layout really sit at that
/// offset.
pub fn block_field<F: Block>(base: F::Address, offset: usize) -> (r: F)
    requires
        0 <= base.spec_addr(),
        base.spec_addr() + offset <= usize::MAX,
    ensures
        r.spec_addr() == base.spec_addr() + offset,
{
    F::new(base.byte_add(offset))
}

/// The total byte extent of a sequence of field sizes.
pub open spec fn spec_total_size(sizes: Seq<usize>) -> int
    decreases sizes.len(),
{
    if sizes.len() == 0 {
        0
    } else {
        spec_total_size(sizes.drop_last()) + sizes.last()
    }
}

/// The total size of a register block: the sum of its fields' byte extents
/// — an element's padded size for a register field, the declared size for
/// padding.  Returns `None` when the sum does not fit the address space.
pub fn fields_total_size(sizes: &Vec<usize>) -> (r: Option<usize>)
    ensures
        spec_total_size(sizes@) <= usize::MAX ==> r == Some(
            (spec_total_size(sizes@) as usize),
        ),
        spec_total_size(sizes@) > usize::MAX ==> r is None,
{
    let mut total: usize = 0;
    let mut k: usize = 0;
    while k < sizes.len()
        invariant
            k <= sizes@.len(),
            total as int == spec_total_size(sizes@.take(k as int)),
        decreases sizes@.len() - k,
    {
        proof {
            assert(sizes@.take(k as int + 1).drop_last() =~= sizes@.take(k as int));
            lemma_total_size_prefix_bound(sizes@, k as int + 1);
        }
        let next = match total.checked_add(sizes[k]) {
            Some(next) => next,
            None => {
                return None;
            },
        };
        total = next;
        k += 1;
    }
    proof {
        assert(sizes@.take(sizes@.len() as int) =~= sizes@);
    }
    Some(total)
}

/// Field sizes are non-negative, so every prefix sum is bounded by the sum
/// of any longer prefix.
proof fn lemma_total_size_prefix_bound(sizes: Seq<usize>, k: int)
    requires
        0 <= k <= sizes.len(),
    ensures
        spec_total_size(sizes.take(k)) <= spec_total_size(sizes),
    decreases sizes.len() - k,
{
    if k == sizes.len() {
        assert(sizes.take(k) =~= sizes);
    } else {
        lemma_total_size_prefix_bound(sizes, k + 1);
        assert(sizes.take(k + 1).drop_last() =~= sizes.take(k));
        assert(spec_total_size(sizes.take(k)) <= spec_total_size(sizes.take(k + 1)));
    }
}

} // verus!
