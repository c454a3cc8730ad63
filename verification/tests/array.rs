//! Runtime-layer tests: address arithmetic, padded sizes, and bounds-checked
//! register arrays.
use tock_registers::Address;
use tock_registers::Block;
use tock_registers::Bus;
use tock_registers::Mmio32;
use tock_registers::RealRegisterArray;
use tock_registers::RegisterArray;
use tock_registers::U8Register;

#[test]
fn mmio32_byte_add() {
    let base = Mmio32(0x4000_0000);
    let advanced = base.byte_add(0x10);
    assert_eq!(advanced.0, 0x4000_0010);
}

#[test]
fn mmio32_padded_sizes() {
    assert_eq!(<Mmio32 as Bus<u8>>::padded_size(), 1);
    assert_eq!(<Mmio32 as Bus<u16>>::padded_size(), 2);
    assert_eq!(<Mmio32 as Bus<u32>>::padded_size(), 4);
    assert_eq!(<Mmio32 as Bus<u64>>::padded_size(), 8);
    assert_eq!(<Mmio32 as Bus<u128>>::padded_size(), 16);
    assert_eq!(<Mmio32 as Bus<usize>>::padded_size(), 4);
}

#[test]
fn u8_register_block_size() {
    assert_eq!(<U8Register<Mmio32> as Block>::size(), 1);
    let register = <U8Register<Mmio32> as Block>::new(Mmio32(0x100));
    assert_eq!(register.address.0, 0x100);
}

#[test]
fn array_get_computes_element_addresses() {
    // Four byte-wide registers starting at 0x100: element i sits at
    // base + i * element_size.
    let array: RealRegisterArray<U8Register<Mmio32>, 4> = RealRegisterArray::new(Mmio32(0x100));
    assert_eq!(<RealRegisterArray<U8Register<Mmio32>, 4> as RegisterArray>::len(), 4);
    for i in 0..4 {
        let element = array.get(i).unwrap();
        assert_eq!(element.address.0, 0x100 + i);
    }
}

#[test]
fn array_get_out_of_bounds_is_none() {
    let array: RealRegisterArray<U8Register<Mmio32>, 4> = RealRegisterArray::new(Mmio32(0x100));
    assert!(array.get(4).is_none());
    assert!(array.get(5).is_none());
    assert!(array.get(usize::MAX).is_none());
}

#[test]
fn array_get_unchecked_agrees_with_get() {
    let array: RealRegisterArray<U8Register<Mmio32>, 4> = RealRegisterArray::new(Mmio32(0x100));
    for i in 0..4 {
        let checked = array.get(i).unwrap();
        let unchecked = array.get_unchecked(i);
        assert_eq!(checked.address.0, unchecked.address.0);
    }
}

#[test]
fn nested_arrays_compose_sizes_and_addresses() {
    // [[u8 register; 2]; 3]: the inner array is 2 bytes wide, so outer
    // element i starts at base + 2 * i.
    type Inner = RealRegisterArray<U8Register<Mmio32>, 2>;
    type Outer = RealRegisterArray<Inner, 3>;
    assert_eq!(<Inner as Block>::size(), 2);
    assert_eq!(<Outer as Block>::size(), 6);
    let outer: Outer = RealRegisterArray::new(Mmio32(0x200));
    let middle = outer.get(1).unwrap();
    assert_eq!(middle.address.0, 0x202);
    let element = middle.get(1).unwrap();
    assert_eq!(element.address.0, 0x203);
    assert!(middle.get(2).is_none());
}

#[test]
fn zero_length_array_has_zero_size() {
    type Empty = RealRegisterArray<U8Register<Mmio32>, 0>;
    assert_eq!(<Empty as Block>::size(), 0);
    let array: Empty = RealRegisterArray::new(Mmio32(0x100));
    assert!(array.get(0).is_none());
}

#[test]
fn block_field_advances_base_by_offset() {
    let base = Mmio32(0x300);
    let field: U8Register<Mmio32> = tock_registers::bus::block_field(base, 0x24);
    assert_eq!(field.address.0, 0x324);
    let array: RealRegisterArray<U8Register<Mmio32>, 4> =
        tock_registers::bus::block_field(base, 8);
    assert_eq!(array.address.0, 0x308);
}

#[test]
fn fields_total_size_sums_extents() {
    // A byte register, three bytes of padding, and a word register.
    assert_eq!(tock_registers::bus::fields_total_size(&vec![1, 3, 4]), Some(8));
    assert_eq!(tock_registers::bus::fields_total_size(&vec![]), Some(0));
    assert_eq!(tock_registers::bus::fields_total_size(&vec![usize::MAX, 1]), None);
}
