//! Bounds-checked homogeneous register arrays.
use vstd::prelude::*;

use crate::bus::Address;
use crate::bus::Block;

verus! {

/// Interface for an array of registers (or register blocks, or register
/// arrays).
pub trait RegisterArray: Copy + Sized {
    /// The type of each element of this array.
    type Element: Copy;

    /// The number of elements of this array.
    spec fn spec_len() -> int;

    /// The well-formedness an array value must have before it can be
    /// indexed.  For a real array this says that the whole span of the array
    /// fits in the address space.
    spec fn inv(self) -> bool;

    /// The element of this array at index `i`.  Both accessors below return
    /// exactly this element, so the checked and the unchecked accessor always
    /// agree on in-bounds indices.
    spec fn spec_index(self, i: int) -> Self::Element;

    /// Executable counterpart of [`RegisterArray::spec_len`].
    fn len() -> (r: usize)
        ensures
            r as int == Self::spec_len(),
    ;

    /// Returns the `index`-th element of this array, or `None` if
    /// `index >= len`.
    fn get(self, index: usize) -> (r: Option<Self::Element>)
        requires
            self.inv(),
        ensures
            index < Self::spec_len() ==> r == Some(self.spec_index(index as int)),
            index >= Self::spec_len() ==> r is None,
    ;

    /// Returns the `index`-th element of this array.  The bound `index < len`
    /// is the caller's obligation; in return this accessor avoids the branch
    /// of [`RegisterArray::get`].
    fn get_unchecked(self, index: usize) -> (r: Self::Element)
        requires
            self.inv(),
            index < Self::spec_len(),
        ensures
            r == self.spec_index(index as int),
    ;
}

/// Real implementation of [`RegisterArray`]: `LEN` consecutive `Element`
/// blocks starting at `address`.  The caller of [`RealRegisterArray::new`]
/// must ensure `address` really points at such an array.
#[derive(Clone, Copy)]
pub struct RealRegisterArray<Element: Block, const LEN: usize> {
    pub address: Element::Address,
}

impl<Element: Block, const LEN: usize> RealRegisterArray<Element, LEN> {
    /// The position of element `i`: the array's base advanced by `i` element
    /// sizes.
    pub open spec fn spec_element_addr(self, i: int) -> int {
        self.address.spec_addr() + i * Element::spec_size()
    }

    /// Constructs a new register array at the given address.  The caller must
    /// ensure `address` points to an array of `LEN` registers, each laid out
    /// as `Element` describes.
    pub fn new(address: Element::Address) -> (r: RealRegisterArray<Element, LEN>)
        ensures
            r.address == address,
    {
        RealRegisterArray { address }
    }
}

impl<Element: Block, const LEN: usize> Block for RealRegisterArray<Element, LEN> {
    type Address = Element::Address;

    open spec fn spec_size() -> int {
        LEN * Element::spec_size()
    }

    fn size() -> (r: usize) {
        if LEN == 0 {
            0
        } else {
            assert(Element::spec_size() <= usize::MAX) by (nonlinear_arith)
                requires
                    LEN >= 1,
                    LEN * Element::spec_size() <= usize::MAX,
            ;
            let element_size = Element::size();
            assert(LEN * Element::spec_size() >= 0) by (nonlinear_arith)
                requires
                    LEN >= 1,
                    Element::spec_size() >= 0,
            ;
            LEN * element_size
        }
    }

    open spec fn spec_addr(self) -> int {
        self.address.spec_addr()
    }

    proof fn lemma_determined_by_spec_addr(a: Self, b: Self) {
        Element::Address::lemma_determined_by_spec_addr(a.address, b.address);
    }

    fn new(address: Element::Address) -> (r: RealRegisterArray<Element, LEN>) {
        RealRegisterArray { address }
    }
}

impl<Element: Block, const LEN: usize> RegisterArray for RealRegisterArray<Element, LEN> {
    type Element = Element;

    open spec fn spec_len() -> int {
        LEN as int
    }

    /// The array may be indexed when its span sits inside the address space.
    open spec fn inv(self) -> bool {
        &&& 0 <= self.address.spec_addr()
        &&& 0 <= Element::spec_size()
        &&& self.address.spec_addr() + LEN * Element::spec_size() <= usize::MAX
    }

    open spec fn spec_index(self, i: int) -> Element {
        choose|e: Element| e.spec_addr() == self.spec_element_addr(i)
    }

    fn len() -> (r: usize) {
        LEN
    }

    fn get(self, index: usize) -> (r: Option<Element>)
        ensures
            index < LEN ==> (r matches Some(e) && e.spec_addr() == self.spec_element_addr(
                index as int,
            )),
    {
        if index >= LEN {
            return None;
        }
        Some(self.get_unchecked(index))
    }

    fn get_unchecked(self, index: usize) -> (r: Element)
        ensures
            r.spec_addr() == self.spec_element_addr(index as int),
    {
        proof {
            assert(Element::spec_size() <= usize::MAX && index * Element::spec_size() <= LEN
                * Element::spec_size()) by (nonlinear_arith)
                requires
                    0 <= index < LEN,
                    0 <= Element::spec_size(),
                    LEN * Element::spec_size() <= usize::MAX,
            ;
            assert(0 <= index * Element::spec_size()) by (nonlinear_arith)
                requires
                    0 <= index,
                    0 <= Element::spec_size(),
            ;
        }
        let element_size = Element::size();
        let offset = index * element_size;
        let address = self.address.byte_add(offset);
        let element = Element::new(address);
        proof {
            let picked = self.spec_index(index as int);
            assert(element.spec_addr() == self.spec_element_addr(index as int));
            assert(picked.spec_addr() == self.spec_element_addr(index as int)) by {
                assert(exists|e: Element|
                    e.spec_addr() == self.spec_element_addr(index as int)) by {
                    assert(element.spec_addr() == self.spec_element_addr(index as int));
                }
            }
            Element::lemma_determined_by_spec_addr(element, picked);
        }
        element
    }
}

} // verus!
