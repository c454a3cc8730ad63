//! The code generator.
//!
//! For every definition the generator emits one namespace; what varies with
//! the input is captured by the output model below (names, bounds, the
//! per-bus offset constants, the nesting of array wrappers), and every
//! executable generator function is proved to return exactly what its
//! specification function says.  Generation itself cannot fail: all
//! validation happens during parsing, and the one constraint parsing does not
//! enforce — each register field must supply at least one offset literal per
//! declared bus — is the generator's precondition, checked by
//! [`registers`] before it generates anything.
use vstd::prelude::*;

use crate::ast::Attr;
use crate::ast::AttrV;
use crate::ast::Definition;
use crate::ast::DefinitionV;
use crate::ast::Field;
use crate::ast::FieldDef;
use crate::ast::FieldDefV;
use crate::ast::FieldV;
use crate::ast::Input;
use crate::ast::InputV;
use crate::ast::Path;
use crate::ast::PathV;
use crate::ast::PerBusInt;
use crate::ast::PerBusIntV;
use crate::ast::RegisterDef;
use crate::ast::RegisterDefV;
use crate::ast::TypePath;
use crate::ast::TypePathV;
use crate::ast::Value;
use crate::ast::ValueV;
use crate::ast::Vis;
use crate::parse::ErrorKind;
use crate::parse::ParseError;
use crate::parse::sp_input;
use crate::token::Tok;

verus! {

/// What a block's capability interface requires of one register field's
/// accessor type.
#[derive(Debug, PartialEq, Eq)]
pub enum InterfaceBound {
    /// The field references another definition: the accessor is bound by
    /// that definition's own capability interface.
    Module(TypePath),
    /// The field defines its own element: the accessor is bound by the base
    /// register contract with this element type, plus every requested
    /// capability.
    Register { element_type: TypePath, operations: Vec<Path> },
}

/// View of [`InterfaceBound`].
pub enum InterfaceBoundV {
    Module(TypePathV),
    Register { element_type: TypePathV, operations: Seq<PathV> },
}

impl View for InterfaceBound {
    type V = InterfaceBoundV;

    open spec fn view(&self) -> InterfaceBoundV {
        match self {
            InterfaceBound::Module(tp) => InterfaceBoundV::Module(tp@),
            InterfaceBound::Register { element_type, operations } => InterfaceBoundV::Register {
                element_type: element_type@,
                operations: operations.deep_view(),
            },
        }
    }
}

impl DeepView for InterfaceBound {
    type V = InterfaceBoundV;

    open spec fn deep_view(&self) -> InterfaceBoundV {
        self.view()
    }
}

/// One named accessor of a block's capability interface: calling it consumes
/// the (freely duplicable) block handle and returns the field's handle.
#[derive(Debug, PartialEq, Eq)]
pub struct InterfaceField {
    pub name: String,
    pub bound: InterfaceBound,
}

/// View of [`InterfaceField`].
pub struct InterfaceFieldV {
    pub name: Seq<char>,
    pub bound: InterfaceBoundV,
}

impl View for InterfaceField {
    type V = InterfaceFieldV;

    open spec fn view(&self) -> InterfaceFieldV {
        InterfaceFieldV { name: self.name@, bound: self.bound@ }
    }
}

impl DeepView for InterfaceField {
    type V = InterfaceFieldV;

    open spec fn deep_view(&self) -> InterfaceFieldV {
        self.view()
    }
}

/// What a block's bus-capability interface requires of the bus for one
/// register field.
#[derive(Debug, PartialEq, Eq)]
pub enum BusBound {
    /// The field references another definition: the bus must satisfy that
    /// definition's own bus-capability interface.
    Module(TypePath),
    /// The field defines its own element: the bus must support the element's
    /// value type.
    Data(TypePath),
}

/// View of [`BusBound`].
pub enum BusBoundV {
    Module(TypePathV),
    Data(TypePathV),
}

impl View for BusBound {
    type V = BusBoundV;

    open spec fn view(&self) -> BusBoundV {
        match self {
            BusBound::Module(tp) => BusBoundV::Module(tp@),
            BusBound::Data(tp) => BusBoundV::Data(tp@),
        }
    }
}

impl DeepView for BusBound {
    type V = BusBoundV;

    open spec fn deep_view(&self) -> BusBoundV {
        self.view()
    }
}

/// One compile-time-visible offset constant of a block's bus implementation:
/// the byte offset of the named register on that bus.
#[derive(Debug, PartialEq, Eq)]
pub struct OffsetConst {
    pub register: String,
    pub value: u128,
}

/// View of [`OffsetConst`].
pub struct OffsetConstV {
    pub register: Seq<char>,
    pub value: u128,
}

impl View for OffsetConst {
    type V = OffsetConstV;

    open spec fn view(&self) -> OffsetConstV {
        OffsetConstV { register: self.register@, value: self.value }
    }
}

impl DeepView for OffsetConst {
    type V = OffsetConstV;

    open spec fn deep_view(&self) -> OffsetConstV {
        self.view()
    }
}

/// The bus-capability implementation emitted for one concrete bus of a
/// block: the offset constants, selected positionally from each register
/// field's per-bus offsets by this bus's index.
#[derive(Debug, PartialEq, Eq)]
pub struct BusImpl {
    pub bus: TypePath,
    pub offsets: Vec<OffsetConst>,
}

/// View of [`BusImpl`].
pub struct BusImplV {
    pub bus: TypePathV,
    pub offsets: Seq<OffsetConstV>,
}

impl View for BusImpl {
    type V = BusImplV;

    open spec fn view(&self) -> BusImplV {
        BusImplV { bus: self.bus@, offsets: self.offsets.deep_view() }
    }
}

impl DeepView for BusImpl {
    type V = BusImplV;

    open spec fn deep_view(&self) -> BusImplV {
        self.view()
    }
}

/// The innermost accessor of a nested array type.
#[derive(Debug, PartialEq, Eq)]
pub enum RealLeaf {
    /// This definition's own zero-size element accessor.
    Element,
    /// The referenced definition's accessor.
    Ref(TypePath),
}

/// View of [`RealLeaf`].
pub enum RealLeafV {
    Element,
    Ref(TypePathV),
}

impl View for RealLeaf {
    type V = RealLeafV;

    open spec fn view(&self) -> RealLeafV {
        match self {
            RealLeaf::Element => RealLeafV::Element,
            RealLeaf::Ref(tp) => RealLeafV::Ref(tp@),
        }
    }
}

/// A concrete accessor type: a leaf accessor wrapped in zero or more bounded
/// array wrappers.  `Array(inner, n)` is an array of `n` copies of `inner`;
/// wrapping proceeds from the innermost size outward, so the outermost
/// wrapper carries the last array size.
#[derive(Debug, PartialEq, Eq)]
pub enum RealTy {
    Leaf(RealLeaf),
    Array(Box<RealTy>, u128),
}

/// View of [`RealTy`]: the leaf and the array sizes, innermost first.
pub struct RealTyV {
    pub leaf: RealLeafV,
    pub sizes: Seq<u128>,
}

/// The view of a [`RealTy`]: its leaf and its sizes, innermost first.
pub open spec fn real_ty_view(t: RealTy) -> RealTyV
    decreases t,
{
    match t {
        RealTy::Leaf(leaf) => RealTyV { leaf: leaf@, sizes: seq![] },
        RealTy::Array(inner, n) => {
            let iv = real_ty_view(*inner);
            RealTyV { leaf: iv.leaf, sizes: iv.sizes.push(n) }
        },
    }
}

impl View for RealTy {
    type V = RealTyV;

    open spec fn view(&self) -> RealTyV {
        real_ty_view(*self)
    }
}

impl DeepView for RealTy {
    type V = RealTyV;

    open spec fn deep_view(&self) -> RealTyV {
        self.view()
    }
}

/// The namespace emitted for a block definition: a capability interface with
/// one accessor per register field, a bus-capability interface with one bus
/// bound and one offset-constant declaration per register field, one
/// bus-capability implementation and one sealing implementation per declared
/// bus, and the generic accessor record.
#[derive(Debug, PartialEq, Eq)]
pub struct GenBlock {
    /// One interface accessor per register field, in declaration order.
    pub interface_fields: Vec<InterfaceField>,
    /// One bus bound per register field, in declaration order.
    pub bus_bounds: Vec<BusBound>,
    /// One bus-capability implementation per declared bus, in bus order.
    pub bus_impls: Vec<BusImpl>,
    /// The buses that receive a sealing implementation.
    pub buses: Vec<TypePath>,
}

/// View of [`GenBlock`].
pub struct GenBlockV {
    pub interface_fields: Seq<InterfaceFieldV>,
    pub bus_bounds: Seq<BusBoundV>,
    pub bus_impls: Seq<BusImplV>,
    pub buses: Seq<TypePathV>,
}

impl View for GenBlock {
    type V = GenBlockV;

    open spec fn view(&self) -> GenBlockV {
        GenBlockV {
            interface_fields: self.interface_fields.deep_view(),
            bus_bounds: self.bus_bounds.deep_view(),
            bus_impls: self.bus_impls.deep_view(),
            buses: self.buses.deep_view(),
        }
    }
}

/// The namespace emitted for a leaf register definition: a capability
/// interface bound by the base register contract plus the requested
/// capabilities, a sealed bus-capability interface, the zero-size accessor
/// record whose block size is the bus's padded size for the element's value
/// type, one capability implementation per requested capability, and, when
/// the definition has array sizes, an alias wrapping the accessor in nested
/// bounded arrays.
#[derive(Debug, PartialEq, Eq)]
pub struct GenSingleDef {
    pub element_type: TypePath,
    pub operations: Vec<Path>,
    pub buses: Vec<TypePath>,
    pub array_sizes: Vec<u128>,
    /// True when the element struct is named apart and the public accessor
    /// name is an alias for the wrapped array type.
    pub wrapped: bool,
    /// The nested array alias, present exactly when there are array sizes.
    pub real_alias: Option<RealTy>,
}

/// View of [`GenSingleDef`].
pub struct GenSingleDefV {
    pub element_type: TypePathV,
    pub operations: Seq<PathV>,
    pub buses: Seq<TypePathV>,
    pub array_sizes: Seq<u128>,
    pub wrapped: bool,
    pub real_alias: Option<RealTyV>,
}

impl View for GenSingleDef {
    type V = GenSingleDefV;

    open spec fn view(&self) -> GenSingleDefV {
        GenSingleDefV {
            element_type: self.element_type@,
            operations: self.operations.deep_view(),
            buses: self.buses.deep_view(),
            array_sizes: self.array_sizes.deep_view(),
            wrapped: self.wrapped,
            real_alias: self.real_alias.deep_view(),
        }
    }
}

/// The namespace emitted for a reference register definition: it re-exports
/// the referenced definition's accessor (wrapped in nested bounded arrays
/// per this definition's own array sizes) and constrains its bus set to one
/// compatible with the referenced definition's.
#[derive(Debug, PartialEq, Eq)]
pub struct GenSingleRef {
    pub element_type: TypePath,
    pub array_sizes: Vec<u128>,
    pub buses: Vec<TypePath>,
    /// The re-exported accessor type.
    pub real: RealTy,
}

/// View of [`GenSingleRef`].
pub struct GenSingleRefV {
    pub element_type: TypePathV,
    pub array_sizes: Seq<u128>,
    pub buses: Seq<TypePathV>,
    pub real: RealTyV,
}

impl View for GenSingleRef {
    type V = GenSingleRefV;

    open spec fn view(&self) -> GenSingleRefV {
        GenSingleRefV {
            element_type: self.element_type@,
            array_sizes: self.array_sizes.deep_view(),
            buses: self.buses.deep_view(),
            real: self.real@,
        }
    }
}

/// The emission case of one definition.
#[derive(Debug, PartialEq, Eq)]
pub enum GenBody {
    Block(GenBlock),
    SingleDef(GenSingleDef),
    SingleRef(GenSingleRef),
}

/// View of [`GenBody`].
pub enum GenBodyV {
    Block(GenBlockV),
    SingleDef(GenSingleDefV),
    SingleRef(GenSingleRefV),
}

impl View for GenBody {
    type V = GenBodyV;

    open spec fn view(&self) -> GenBodyV {
        match self {
            GenBody::Block(g) => GenBodyV::Block(g@),
            GenBody::SingleDef(g) => GenBodyV::SingleDef(g@),
            GenBody::SingleRef(g) => GenBodyV::SingleRef(g@),
        }
    }
}

/// The self-contained namespace emitted for one definition.
#[derive(Debug, PartialEq, Eq)]
pub struct GenModule {
    /// The path under which generated code reaches this library.
    pub tock_registers: Path,
    /// The definition's copied metadata, re-attached to the namespace.
    pub attributes: Vec<Attr>,
    pub visibility: Vis,
    pub name: String,
    pub body: GenBody,
}

/// View of [`GenModule`].
pub struct GenModuleV {
    pub tock_registers: PathV,
    pub attributes: Seq<AttrV>,
    pub visibility: Vis,
    pub name: Seq<char>,
    pub body: GenBodyV,
}

impl View for GenModule {
    type V = GenModuleV;

    open spec fn view(&self) -> GenModuleV {
        GenModuleV {
            tock_registers: self.tock_registers@,
            attributes: self.attributes.deep_view(),
            visibility: self.visibility,
            name: self.name@,
            body: self.body@,
        }
    }
}

impl DeepView for GenModule {
    type V = GenModuleV;

    open spec fn deep_view(&self) -> GenModuleV {
        self.view()
    }
}

/// The offset a per-bus integer gives to the bus at index `i`: a single
/// literal is broadcast to every bus, an array is selected positionally.
pub open spec fn spec_offset_for(p: PerBusIntV, i: int) -> u128 {
    match p {
        PerBusIntV::Single(n) => n,
        PerBusIntV::Array(v) => v[i],
    }
}

/// The block fields that are registers (padding generates nothing), in
/// declaration order.
pub open spec fn spec_register_fields(fields: Seq<FieldV>) -> Seq<FieldV>
    decreases fields.len(),
{
    if fields.len() == 0 {
        seq![]
    } else {
        let rest = spec_register_fields(fields.drop_last());
        match fields.last().field_def {
            FieldDefV::Register(_) => rest.push(fields.last()),
            FieldDefV::Padding(_) => rest,
        }
    }
}

/// The register descriptor of a register field.
pub open spec fn spec_reg_of(f: FieldV) -> RegisterDefV
    recommends
        f.field_def is Register,
{
    f.field_def->Register_0
}

/// The interface accessor generated for one register field.
pub open spec fn spec_interface_field(r: RegisterDefV) -> InterfaceFieldV {
    InterfaceFieldV {
        name: r.name,
        bound: match r.operations {
            None => InterfaceBoundV::Module(r.element_type),
            Some(ops) => InterfaceBoundV::Register { element_type: r.element_type, operations: ops },
        },
    }
}

/// The bus bound generated for one register field.
pub open spec fn spec_bus_bound(r: RegisterDefV) -> BusBoundV {
    match r.operations {
        None => BusBoundV::Module(r.element_type),
        Some(_) => BusBoundV::Data(r.element_type),
    }
}

/// The bus-capability implementation generated for the bus at index `i`:
/// one offset constant per register field, selected positionally.
pub open spec fn spec_bus_impl(fields: Seq<FieldV>, bus: TypePathV, i: int) -> BusImplV {
    BusImplV {
        bus,
        offsets: spec_register_fields(fields).map_values(
            |f: FieldV|
                OffsetConstV { register: spec_reg_of(f).name, value: spec_offset_for(f.offsets, i) },
        ),
    }
}

/// The namespace generated for a block definition.
pub open spec fn spec_block(
    tock_registers: PathV,
    d: DefinitionV,
    name: Seq<char>,
    fields: Seq<FieldV>,
) -> GenModuleV {
    let regs = spec_register_fields(fields).map_values(|f: FieldV| spec_reg_of(f));
    GenModuleV {
        tock_registers,
        attributes: d.attributes,
        visibility: d.visibility,
        name,
        body: GenBodyV::Block(
            GenBlockV {
                interface_fields: regs.map_values(|r: RegisterDefV| spec_interface_field(r)),
                bus_bounds: regs.map_values(|r: RegisterDefV| spec_bus_bound(r)),
                bus_impls: Seq::new(
                    d.buses.len(),
                    |i: int| spec_bus_impl(fields, d.buses[i], i),
                ),
                buses: d.buses,
            },
        ),
    }
}

/// The namespace generated for a leaf register definition.
pub open spec fn spec_single_definition(
    tock_registers: PathV,
    d: DefinitionV,
    r: RegisterDefV,
    operations: Seq<PathV>,
) -> GenModuleV {
    GenModuleV {
        tock_registers,
        attributes: d.attributes,
        visibility: d.visibility,
        name: r.name,
        body: GenBodyV::SingleDef(
            GenSingleDefV {
                element_type: r.element_type,
                operations,
                buses: d.buses,
                array_sizes: r.array_sizes,
                wrapped: r.array_sizes.len() > 0,
                real_alias: if r.array_sizes.len() == 0 {
                    None
                } else {
                    Some(RealTyV { leaf: RealLeafV::Element, sizes: r.array_sizes })
                },
            },
        ),
    }
}

/// The namespace generated for a reference register definition.
pub open spec fn spec_single_reference(
    tock_registers: PathV,
    d: DefinitionV,
    r: RegisterDefV,
) -> GenModuleV {
    GenModuleV {
        tock_registers,
        attributes: d.attributes,
        visibility: d.visibility,
        name: r.name,
        body: GenBodyV::SingleRef(
            GenSingleRefV {
                element_type: r.element_type,
                array_sizes: r.array_sizes,
                buses: d.buses,
                real: RealTyV { leaf: RealLeafV::Ref(r.element_type), sizes: r.array_sizes },
            },
        ),
    }
}

/// The namespace generated for one definition, by emission case.
pub open spec fn spec_generate(inp: InputV, d: DefinitionV) -> GenModuleV {
    match d.value {
        ValueV::Single(r) => match r.operations {
            Some(ops) => spec_single_definition(inp.tock_registers, d, r, ops),
            None => spec_single_reference(inp.tock_registers, d, r),
        },
        ValueV::Block { name, fields } => spec_block(inp.tock_registers, d, name, fields),
    }
}

/// A register field supplies an offset for every declared bus: an offset
/// array must have at least one literal per bus.  (Padding offsets and sizes
/// are threaded through unchanged and never selected by bus.)
pub open spec fn wf_field_offsets(f: FieldV, nbuses: int) -> bool {
    f.field_def is Register ==> match f.offsets {
        PerBusIntV::Array(v) => v.len() >= nbuses,
        PerBusIntV::Single(_) => true,
    }
}

/// The generator's precondition on one definition.
pub open spec fn wf_definition(d: DefinitionV) -> bool {
    match d.value {
        ValueV::Block { name, fields } => forall|k: int|
            0 <= k < fields.len() ==> wf_field_offsets(
                #[trigger] fields[k],
                d.buses.len() as int,
            ),
        ValueV::Single(_) => true,
    }
}

} // verus!
verus! {

/// Pushing an element appends its view to the list's view.
proof fn lemma_deep_view_push<T: DeepView>(pre: Vec<T>, post: Vec<T>, x: T)
    requires
        post@ == pre@.push(x),
    ensures
        post.deep_view() == pre.deep_view().push(x.deep_view()),
{
    assert(post@.len() == pre@.len() + 1);
    assert forall|i: int| 0 <= i < post.deep_view().len() implies post.deep_view()[i]
        == pre.deep_view().push(x.deep_view())[i] by {
        if i < pre@.len() {
            assert(post@[i] == pre@[i]);
        } else {
            assert(post@[i] == x);
        }
    }
    assert(post.deep_view() =~= pre.deep_view().push(x.deep_view()));
}

/// Mapping a function over a list extended by one element extends the mapped
/// list by the function of that element.
proof fn lemma_map_values_push<A, B>(s: Seq<A>, f: spec_fn(A) -> B, x: A)
    ensures
        (s.push(x)).map_values(f) == s.map_values(f).push(f(x)),
{
    assert forall|i: int| 0 <= i < s.len() + 1 implies (s.push(x)).map_values(f)[i]
        == s.map_values(f).push(f(x))[i] by {
        if i < s.len() {
            assert(s.push(x)[i] == s[i]);
        } else {
            assert(s.push(x)[i] == x);
        }
    }
    assert((s.push(x)).map_values(f) =~= s.map_values(f).push(f(x)));
}

/// Every register field of a block is one of the block's fields, so a
/// well-formedness fact about all fields carries over to the register
/// fields.
proof fn lemma_register_fields_are_fields(fields: Seq<FieldV>, j: int)
    requires
        0 <= j < spec_register_fields(fields).len(),
    ensures
        exists|k: int|
            0 <= k < fields.len() && #[trigger] fields[k] == spec_register_fields(fields)[j],
        spec_register_fields(fields)[j].field_def is Register,
    decreases fields.len(),
{
    if fields.len() > 0 {
        let rest = spec_register_fields(fields.drop_last());
        if j < rest.len() {
            lemma_register_fields_are_fields(fields.drop_last(), j);
            let k = choose|k: int|
                0 <= k < fields.drop_last().len() && #[trigger] fields.drop_last()[k] == rest[j];
            assert(fields[k] == spec_register_fields(fields)[j]);
        } else {
            assert(fields[fields.len() - 1] == spec_register_fields(fields)[j]);
        }
    }
}

/// An owned copy of an integer list, with the same view.
fn clone_u128s(v: &Vec<u128>) -> (r: Vec<u128>)
    ensures
        r.deep_view() == v.deep_view(),
{
    let mut r: Vec<u128> = Vec::new();
    let mut k: usize = 0;
    while k < v.len()
        invariant
            k <= v@.len(),
            r.deep_view() == v.deep_view().take(k as int),
        decreases v@.len() - k,
    {
        let ghost pre = r;
        r.push(v[k]);
        proof {
            lemma_deep_view_push(pre, r, v@[k as int]);
            assert(r.deep_view() =~= v.deep_view().take(k as int + 1));
        }
        k += 1;
    }
    proof {
        assert(r.deep_view() =~= v.deep_view());
    }
    r
}

/// An owned copy of a type-path list, with the same view.
fn clone_type_paths(v: &Vec<TypePath>) -> (r: Vec<TypePath>)
    ensures
        r.deep_view() == v.deep_view(),
{
    let mut r: Vec<TypePath> = Vec::new();
    let mut k: usize = 0;
    while k < v.len()
        invariant
            k <= v@.len(),
            r.deep_view() == v.deep_view().take(k as int),
        decreases v@.len() - k,
    {
        let item = crate::parse::clone_type_path(&v[k]);
        let ghost pre = r;
        let ghost item_g = item;
        r.push(item);
        proof {
            lemma_deep_view_push(pre, r, item_g);
            assert(r.deep_view() =~= v.deep_view().take(k as int + 1));
        }
        k += 1;
    }
    proof {
        assert(r.deep_view() =~= v.deep_view());
    }
    r
}

/// An owned copy of a per-bus integer, with the same view.
fn clone_per_bus_int(p: &PerBusInt) -> (r: PerBusInt)
    ensures
        r@ == p@,
{
    match p {
        PerBusInt::Single(n) => PerBusInt::Single(*n),
        PerBusInt::Array(v) => PerBusInt::Array(clone_u128s(v)),
    }
}

/// The offset a per-bus integer gives to the bus at index `i`; the
/// executable counterpart of [`spec_offset_for`].
fn offset_for(offsets: &PerBusInt, i: usize) -> (r: u128)
    requires
        offsets@ matches PerBusIntV::Array(v) ==> i < v.len(),
    ensures
        r == spec_offset_for(offsets@, i as int),
{
    match offsets {
        PerBusInt::Single(n) => *n,
        PerBusInt::Array(v) => v[i],
    }
}

/// The interface accessor generated for one register field; the executable
/// counterpart of [`spec_interface_field`].
pub fn interface_field(register: &RegisterDef) -> (r: InterfaceField)
    ensures
        r@ == spec_interface_field(register@),
{
    let bound = match &register.operations {
        None => InterfaceBound::Module(crate::parse::clone_type_path(&register.element_type)),
        Some(ops) => InterfaceBound::Register {
            element_type: crate::parse::clone_type_path(&register.element_type),
            operations: crate::parse::clone_paths(ops),
        },
    };
    InterfaceField { name: register.name.clone(), bound }
}

/// The bus bound generated for one register field; the executable
/// counterpart of [`spec_bus_bound`].
fn bus_bound(register: &RegisterDef) -> (r: BusBound)
    ensures
        r@ == spec_bus_bound(register@),
{
    match &register.operations {
        None => BusBound::Module(crate::parse::clone_type_path(&register.element_type)),
        Some(_) => BusBound::Data(crate::parse::clone_type_path(&register.element_type)),
    }
}

} // verus!
verus! {

/// The namespace generated for a block definition; the executable
/// counterpart of [`spec_block`].  The precondition is the per-bus offset
/// count of [`wf_definition`], restricted to these fields.
pub fn block(tock_registers: &Path, definition: &Definition, name: &String, fields: &Vec<
    Field,
>) -> (r: GenModule)
    requires
        forall|k: int|
            0 <= k < fields.deep_view().len() ==> wf_field_offsets(
                #[trigger] fields.deep_view()[k],
                definition@.buses.len() as int,
            ),
    ensures
        r@ == spec_block(tock_registers@, definition@, name@, fields.deep_view()),
{
    let ghost fv = fields.deep_view();
    let mut interface_fields: Vec<InterfaceField> = Vec::new();
    let mut bus_bounds: Vec<BusBound> = Vec::new();
    let mut reg_names: Vec<String> = Vec::new();
    let mut reg_offsets: Vec<PerBusInt> = Vec::new();
    let mut k: usize = 0;
    while k < fields.len()
        invariant
            k <= fv.len(),
            fv == fields.deep_view(),
            interface_fields.deep_view() == spec_register_fields(fv.take(k as int)).map_values(
                |f: FieldV| spec_interface_field(spec_reg_of(f)),
            ),
            bus_bounds.deep_view() == spec_register_fields(fv.take(k as int)).map_values(
                |f: FieldV| spec_bus_bound(spec_reg_of(f)),
            ),
            reg_names.deep_view() == spec_register_fields(fv.take(k as int)).map_values(
                |f: FieldV| spec_reg_of(f).name,
            ),
            reg_offsets.deep_view() == spec_register_fields(fv.take(k as int)).map_values(
                |f: FieldV| f.offsets,
            ),
        decreases fv.len() - k,
    {
        proof {
            let prefix = fv.take(k as int + 1);
            assert(prefix.drop_last() =~= fv.take(k as int));
            assert(prefix.last() == fv[k as int]);
            assert(fv[k as int] == fields@[k as int]@);
        }
        match &fields[k].field_def {
            FieldDef::Register(rd) => {
                proof {
                    assert(spec_register_fields(fv.take(k as int + 1)) == spec_register_fields(
                        fv.take(k as int),
                    ).push(fv[k as int]));
                }
                let item_if = interface_field(rd);
                let ghost item_if_g = item_if;
                let ghost pre_if = interface_fields;
                interface_fields.push(item_if);
                let item_bb = bus_bound(rd);
                let ghost item_bb_g = item_bb;
                let ghost pre_bb = bus_bounds;
                bus_bounds.push(item_bb);
                let item_nm = rd.name.clone();
                let ghost item_nm_g = item_nm;
                let ghost pre_nm = reg_names;
                reg_names.push(item_nm);
                let item_of = clone_per_bus_int(&fields[k].offsets);
                let ghost item_of_g = item_of;
                let ghost pre_of = reg_offsets;
                reg_offsets.push(item_of);
                proof {
                    assert(spec_reg_of(fv[k as int]) == rd@);
                    lemma_deep_view_push(pre_if, interface_fields, item_if_g);
                    lemma_map_values_push(
                        spec_register_fields(fv.take(k as int)),
                        |f: FieldV| spec_interface_field(spec_reg_of(f)),
                        fv[k as int],
                    );
                    lemma_deep_view_push(pre_bb, bus_bounds, item_bb_g);
                    lemma_map_values_push(
                        spec_register_fields(fv.take(k as int)),
                        |f: FieldV| spec_bus_bound(spec_reg_of(f)),
                        fv[k as int],
                    );
                    lemma_deep_view_push(pre_nm, reg_names, item_nm_g);
                    lemma_map_values_push(
                        spec_register_fields(fv.take(k as int)),
                        |f: FieldV| spec_reg_of(f).name,
                        fv[k as int],
                    );
                    lemma_deep_view_push(pre_of, reg_offsets, item_of_g);
                    lemma_map_values_push(
                        spec_register_fields(fv.take(k as int)),
                        |f: FieldV| f.offsets,
                        fv[k as int],
                    );
                }
            },
            FieldDef::Padding(_) => {
                proof {
                    assert(spec_register_fields(fv.take(k as int + 1)) == spec_register_fields(
                        fv.take(k as int),
                    ));
                }
            },
        }
        k += 1;
    }
    proof {
        assert(fv.take(fv.len() as int) =~= fv);
    }
    let nbuses = definition.buses.len();
    let mut bus_impls: Vec<BusImpl> = Vec::new();
    let mut i: usize = 0;
    while i < nbuses
        invariant
            i <= nbuses,
            nbuses == definition@.buses.len(),
            fv == fields.deep_view(),
            forall|k: int|
                0 <= k < fv.len() ==> wf_field_offsets(#[trigger] fv[k], nbuses as int),
            reg_names.deep_view() == spec_register_fields(fv).map_values(
                |f: FieldV| spec_reg_of(f).name,
            ),
            reg_offsets.deep_view() == spec_register_fields(fv).map_values(
                |f: FieldV| f.offsets,
            ),
            bus_impls.deep_view() == Seq::new(
                i as nat,
                |x: int| spec_bus_impl(fv, definition@.buses[x], x),
            ),
        decreases nbuses - i,
    {
        let mut offsets: Vec<OffsetConst> = Vec::new();
        let mut j: usize = 0;
        while j < reg_names.len()
            invariant
                j <= reg_names@.len(),
                i < nbuses,
                nbuses == definition@.buses.len(),
                fv == fields.deep_view(),
                forall|k: int|
                    0 <= k < fv.len() ==> wf_field_offsets(#[trigger] fv[k], nbuses as int),
                reg_names.deep_view() == spec_register_fields(fv).map_values(
                    |f: FieldV| spec_reg_of(f).name,
                ),
                reg_offsets.deep_view() == spec_register_fields(fv).map_values(
                    |f: FieldV| f.offsets,
                ),
                offsets.deep_view() == spec_register_fields(fv).map_values(
                    |f: FieldV|
                        OffsetConstV {
                            register: spec_reg_of(f).name,
                            value: spec_offset_for(f.offsets, i as int),
                        },
                ).take(j as int),
            decreases reg_names@.len() - j,
        {
            proof {
                assert(reg_names.deep_view().len() == reg_names@.len());
                assert(j < spec_register_fields(fv).len());
                lemma_register_fields_are_fields(fv, j as int);
                let kk = choose|kk: int|
                    0 <= kk < fv.len() && #[trigger] fv[kk] == spec_register_fields(fv)[j as int];
                assert(wf_field_offsets(fv[kk], nbuses as int));
                assert(wf_field_offsets(spec_register_fields(fv)[j as int], nbuses as int));
                assert(spec_register_fields(fv)[j as int].field_def is Register);
                assert(spec_register_fields(fv)[j as int].offsets matches PerBusIntV::Array(v)
                    ==> (i as int) < v.len());
                assert(reg_offsets.deep_view()[j as int] == spec_register_fields(fv).map_values(
                    |f: FieldV| f.offsets,
                )[j as int]);
                assert(reg_offsets.deep_view().len() == reg_offsets@.len());
                assert(j < reg_offsets@.len());
                assert(reg_offsets.deep_view()[j as int] == reg_offsets@[j as int]@);
                assert(spec_register_fields(fv).map_values(|f: FieldV| f.offsets)[j as int]
                    == spec_register_fields(fv)[j as int].offsets);
                assert(reg_offsets@[j as int]@ == spec_register_fields(fv)[j as int].offsets);
                assert(reg_names.deep_view()[j as int] == spec_register_fields(fv).map_values(
                    |f: FieldV| spec_reg_of(f).name,
                )[j as int]);
                assert(reg_names.deep_view()[j as int] == reg_names@[j as int]@);
                assert(spec_register_fields(fv).map_values(|f: FieldV| spec_reg_of(f).name)[j as int]
                    == spec_reg_of(spec_register_fields(fv)[j as int]).name);
                assert(reg_names@[j as int]@ == spec_reg_of(
                    spec_register_fields(fv)[j as int],
                ).name);
            }
            let item = OffsetConst {
                register: reg_names[j].clone(),
                value: offset_for(&reg_offsets[j], i),
            };
            let ghost item_g = item;
            let ghost pre = offsets;
            offsets.push(item);
            proof {
                lemma_deep_view_push(pre, offsets, item_g);
                assert(offsets.deep_view() =~= spec_register_fields(fv).map_values(
                    |f: FieldV|
                        OffsetConstV {
                            register: spec_reg_of(f).name,
                            value: spec_offset_for(f.offsets, i as int),
                        },
                ).take(j as int + 1));
            }
            j += 1;
        }
        proof {
            assert(reg_names.deep_view().len() == reg_names@.len());
            assert(offsets.deep_view() =~= spec_register_fields(fv).map_values(
                |f: FieldV|
                    OffsetConstV {
                        register: spec_reg_of(f).name,
                        value: spec_offset_for(f.offsets, i as int),
                    },
            ));
        }
        let item = BusImpl { bus: crate::parse::clone_type_path(&definition.buses[i]), offsets };
        let ghost item_g = item;
        let ghost pre = bus_impls;
        bus_impls.push(item);
        proof {
            assert(definition.buses.deep_view()[i as int] == definition.buses@[i as int]@);
            assert(item_g@.bus == definition@.buses[i as int]);
            assert(item_g@ == spec_bus_impl(fv, definition@.buses[i as int], i as int)) by {
                assert(item_g@.offsets =~= spec_bus_impl(
                    fv,
                    definition@.buses[i as int],
                    i as int,
                ).offsets);
            }
            lemma_deep_view_push(pre, bus_impls, item_g);
            assert(pre.deep_view().len() == i as int);
            assert(bus_impls.deep_view()[i as int] == item_g@);
            assert(bus_impls.deep_view() =~= Seq::new(
                i as nat + 1,
                |x: int| spec_bus_impl(fv, definition@.buses[x], x),
            ));
        }
        i += 1;
    }
    let r = GenModule {
        tock_registers: crate::parse::clone_path(tock_registers),
        attributes: crate::parse::clone_attrs(&definition.attributes),
        visibility: definition.visibility,
        name: name.clone(),
        body: GenBody::Block(
            GenBlock { interface_fields, bus_bounds, bus_impls, buses: clone_type_paths(
                &definition.buses,
            ) },
        ),
    };
    proof {
        let sb = spec_block(tock_registers@, definition@, name@, fv);
        assert(r@.body->Block_0.interface_fields =~= sb.body->Block_0.interface_fields);
        assert(r@.body->Block_0.bus_bounds =~= sb.body->Block_0.bus_bounds);
        assert(r@.body->Block_0.bus_impls =~= sb.body->Block_0.bus_impls);
    }
    r
}

} // verus!
verus! {

/// Wraps a leaf accessor in one bounded-array wrapper per array size,
/// innermost size first.
fn wrap_real(leaf: RealLeaf, sizes: &Vec<u128>) -> (r: RealTy)
    ensures
        r@ == (RealTyV { leaf: leaf@, sizes: sizes.deep_view() }),
{
    let ghost leaf_v = leaf@;
    let mut wrapped = RealTy::Leaf(leaf);
    proof {
        assert(sizes.deep_view().take(0) =~= Seq::<u128>::empty());
    }
    let mut k: usize = 0;
    while k < sizes.len()
        invariant
            k <= sizes@.len(),
            wrapped@ == (RealTyV { leaf: leaf_v, sizes: sizes.deep_view().take(k as int) }),
        decreases sizes@.len() - k,
    {
        wrapped = RealTy::Array(Box::new(wrapped), sizes[k]);
        proof {
            assert(wrapped@.sizes =~= sizes.deep_view().take(k as int + 1));
        }
        k += 1;
    }
    proof {
        assert(sizes.deep_view().take(sizes@.len() as int) =~= sizes.deep_view());
    }
    wrapped
}

/// The namespace generated for a leaf register definition; the executable
/// counterpart of [`spec_single_definition`].
pub fn single_definition(
    tock_registers: &Path,
    definition: &Definition,
    register: &RegisterDef,
    operations: &Vec<Path>,
) -> (r: GenModule)
    ensures
        r@ == spec_single_definition(tock_registers@, definition@, register@, operations.deep_view()),
{
    let wrapped = register.array_sizes.len() > 0;
    let real_alias = if register.array_sizes.len() == 0 {
        None
    } else {
        Some(wrap_real(RealLeaf::Element, &register.array_sizes))
    };
    GenModule {
        tock_registers: crate::parse::clone_path(tock_registers),
        attributes: crate::parse::clone_attrs(&definition.attributes),
        visibility: definition.visibility,
        name: register.name.clone(),
        body: GenBody::SingleDef(
            GenSingleDef {
                element_type: crate::parse::clone_type_path(&register.element_type),
                operations: crate::parse::clone_paths(operations),
                buses: clone_type_paths(&definition.buses),
                array_sizes: clone_u128s(&register.array_sizes),
                wrapped,
                real_alias,
            },
        ),
    }
}

/// The namespace generated for a reference register definition; the
/// executable counterpart of [`spec_single_reference`].
pub fn single_reference(
    tock_registers: &Path,
    definition: &Definition,
    register: &RegisterDef,
) -> (r: GenModule)
    ensures
        r@ == spec_single_reference(tock_registers@, definition@, register@),
{
    let reexported = wrap_real(
        RealLeaf::Ref(crate::parse::clone_type_path(&register.element_type)),
        &register.array_sizes,
    );
    GenModule {
        tock_registers: crate::parse::clone_path(tock_registers),
        attributes: crate::parse::clone_attrs(&definition.attributes),
        visibility: definition.visibility,
        name: register.name.clone(),
        body: GenBody::SingleRef(
            GenSingleRef {
                element_type: crate::parse::clone_type_path(&register.element_type),
                array_sizes: clone_u128s(&register.array_sizes),
                buses: clone_type_paths(&definition.buses),
                real: reexported,
            },
        ),
    }
}

/// The namespace generated for one definition, by emission case; the
/// executable counterpart of [`spec_generate`].  Generation does not fail:
/// the per-bus offset count is its precondition.
pub fn generate(input: &Input, definition: &Definition) -> (r: GenModule)
    requires
        wf_definition(definition@),
    ensures
        r@ == spec_generate(input@, definition@),
{
    match &definition.value {
        Value::Single(register) => match &register.operations {
            Some(ops) => single_definition(&input.tock_registers, definition, register, ops),
            None => single_reference(&input.tock_registers, definition, register),
        },
        Value::Block { name, fields } => {
            proof {
                assert(definition@.value == (ValueV::Block {
                    name: name@,
                    fields: fields.deep_view(),
                }));
            }
            block(&input.tock_registers, definition, name, fields)
        },
    }
}

/// Whether a definition satisfies the generator's precondition; the
/// executable counterpart of [`wf_definition`].
pub fn check_wf_definition(d: &Definition) -> (r: bool)
    ensures
        r == wf_definition(d@),
{
    match &d.value {
        Value::Single(_) => true,
        Value::Block { name: block_name, fields } => {
            let ghost fv = fields.deep_view();
            proof {
                assert(d@.value == (ValueV::Block { name: block_name@, fields: fv }));
            }
            let nbuses = d.buses.len();
            let mut k: usize = 0;
            while k < fields.len()
                invariant
                    k <= fv.len(),
                    fv == fields.deep_view(),
                    nbuses == d@.buses.len(),
                    d@.value == (ValueV::Block { name: block_name@, fields: fv }),
                    forall|q: int| 0 <= q < k ==> wf_field_offsets(#[trigger] fv[q], nbuses as int),
                decreases fv.len() - k,
            {
                let field_is_register = match &fields[k].field_def {
                    FieldDef::Register(_) => true,
                    FieldDef::Padding(_) => false,
                };
                if field_is_register {
                    match &fields[k].offsets {
                        PerBusInt::Array(v) => {
                            if v.len() < nbuses {
                                proof {
                                    assert(fv.len() == fields@.len());
                                    assert(fv[k as int] == fields@[k as int]@);
                                    assert(!wf_field_offsets(fv[k as int], nbuses as int));
                                    assert(!wf_definition(d@)) by {
                                        assert(d@.value == (ValueV::Block {
                                            name: block_name@,
                                            fields: fv,
                                        }));
                                        assert(d@.value->Block_fields == fv);
                                        assert(0 <= (k as int) && (k as int) < fv.len());
                                        assert(!wf_field_offsets(
                                            fv[k as int],
                                            d@.buses.len() as int,
                                        ));
                                    }
                                }
                                return false;
                            }
                        },
                        PerBusInt::Single(_) => {},
                    }
                }
                proof {
                    assert(fv[k as int] == fields@[k as int]@);
                    assert(wf_field_offsets(fv[k as int], nbuses as int));
                }
                k += 1;
            }
            proof {
                assert(fv.len() == fields@.len());
            }
            true
        },
    }
}

/// The whole invocation: parses the tokens and generates one namespace per
/// definition, in declaration order.  A grammar violation, or a register
/// field whose per-bus offset list is shorter than the definition's bus
/// list, aborts the invocation with an error.
pub fn registers(t: &Vec<Tok>) -> (r: Result<Vec<GenModule>, ParseError>)
    ensures
        match sp_input(t@) {
            Some(v) => {
                &&& (forall|q: int| 0 <= q < v.definitions.len() ==> wf_definition(
                    #[trigger] v.definitions[q],
                )) ==> (r matches Ok(ms) && ms.deep_view() == v.definitions.map_values(
                    |d: DefinitionV| spec_generate(v, d),
                ))
                &&& !(forall|q: int| 0 <= q < v.definitions.len() ==> wf_definition(
                    #[trigger] v.definitions[q],
                )) ==> r is Err
            },
            None => r is Err,
        },
{
    let input = match Input::parse(t) {
        Ok(i) => i,
        Err(e) => {
            return Err(e);
        },
    };
    let ghost v = input@;
    let mut k: usize = 0;
    while k < input.definitions.len()
        invariant
            k <= input@.definitions.len(),
            v == input@,
            sp_input(t@) == Some(v),
            forall|q: int| 0 <= q < k ==> wf_definition(#[trigger] v.definitions[q]),
        decreases input@.definitions.len() - k,
    {
        if !check_wf_definition(&input.definitions[k]) {
            proof {
                assert(sp_input(t@)->Some_0 == v);
                assert(v.definitions.len() == input.definitions@.len());
                assert(input.definitions@[k as int]@ == v.definitions[k as int]);
                assert(!wf_definition(v.definitions[k as int]));
                assert(!(forall|q: int|
                    0 <= q < v.definitions.len() ==> wf_definition(
                        #[trigger] v.definitions[q],
                    ))) by {
                    assert(0 <= (k as int) && (k as int) < v.definitions.len());
                    assert(!wf_definition(v.definitions[k as int]));
                }
            }
            return Err(ParseError { pos: 0, kind: ErrorKind::OffsetCountMismatch });
        }
        proof {
            assert(input.definitions@[k as int]@ == v.definitions[k as int]);
        }
        k += 1;
    }
    proof {
        assert(v.definitions.len() == input.definitions@.len());
    }
    let mut out: Vec<GenModule> = Vec::new();
    proof {
        assert(out.deep_view() =~= Seq::<GenModuleV>::empty());
        assert(v.definitions.take(0).map_values(|d: DefinitionV| spec_generate(v, d))
            =~= Seq::<GenModuleV>::empty());
    }
    let mut k: usize = 0;
    while k < input.definitions.len()
        invariant
            k <= input@.definitions.len(),
            v == input@,
            sp_input(t@) == Some(v),
            forall|q: int| 0 <= q < v.definitions.len() ==> wf_definition(
                #[trigger] v.definitions[q],
            ),
            out.deep_view() == v.definitions.take(k as int).map_values(
                |d: DefinitionV| spec_generate(v, d),
            ),
        decreases input@.definitions.len() - k,
    {
        proof {
            assert(input.definitions@[k as int]@ == v.definitions[k as int]);
        }
        let m = generate(&input, &input.definitions[k]);
        let ghost m_g = m;
        let ghost pre = out;
        out.push(m);
        proof {
            lemma_deep_view_push(pre, out, m_g);
            assert(v.definitions.take(k as int + 1).drop_last() =~= v.definitions.take(k as int));
            lemma_map_values_push(
                v.definitions.take(k as int),
                |d: DefinitionV| spec_generate(v, d),
                v.definitions[k as int],
            );
            assert(v.definitions.take(k as int + 1) =~= v.definitions.take(k as int).push(
                v.definitions[k as int],
            ));
            assert(out.deep_view() =~= v.definitions.take(k as int + 1).map_values(
                |d: DefinitionV| spec_generate(v, d),
            ));
        }
        k += 1;
    }
    proof {
        assert(sp_input(t@)->Some_0 == v);
        assert(v.definitions.take(v.definitions.len() as int) =~= v.definitions);
        assert(out.deep_view() =~= v.definitions.map_values(|d: DefinitionV| spec_generate(v, d)));
    }
    Ok(out)
}

/// In a generated block, the offset constant emitted for the bus at index
/// `i` and the register field at index `j` names that register and holds
/// exactly the literal supplied positionally for that bus: the `i`-th
/// literal of the field's offset array, or the broadcast single literal.
/// Changing a bus's position in the definition's bus list therefore changes
/// which literal is selected for it.
pub proof fn lemma_block_offset_selection(
    inp: InputV,
    d: DefinitionV,
    name: Seq<char>,
    fields: Seq<FieldV>,
    i: int,
    j: int,
)
    requires
        d.value == (ValueV::Block { name, fields }),
        wf_definition(d),
        0 <= i < d.buses.len(),
        0 <= j < spec_register_fields(fields).len(),
    ensures
        spec_generate(inp, d).body matches GenBodyV::Block(g) && {
            let f = spec_register_fields(fields)[j];
            &&& g.bus_impls.len() == d.buses.len()
            &&& g.bus_impls[i].bus == d.buses[i]
            &&& g.bus_impls[i].offsets.len() == spec_register_fields(fields).len()
            &&& g.bus_impls[i].offsets[j].register == spec_reg_of(f).name
            &&& g.bus_impls[i].offsets[j].value == spec_offset_for(f.offsets, i)
            &&& (f.offsets matches PerBusIntV::Array(lits) ==> g.bus_impls[i].offsets[j].value
                == lits[i])
            &&& (f.offsets matches PerBusIntV::Single(lit) ==> g.bus_impls[i].offsets[j].value
                == lit)
        },
{
    let g = spec_generate(inp, d).body->Block_0;
    assert(g.bus_impls[i] == spec_bus_impl(fields, d.buses[i], i));
    assert(g.bus_impls[i].offsets[j] == (OffsetConstV {
        register: spec_reg_of(spec_register_fields(fields)[j]).name,
        value: spec_offset_for(spec_register_fields(fields)[j].offsets, i),
    }));
}

} // verus!
