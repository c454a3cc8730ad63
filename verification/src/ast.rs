//! The specification tree: the parsed representation of the declarative
//! register-definition language.  All entities are immutable once parsing
//! completes; the code generator only reads them.
//!
//! Each type comes with a mathematical view (`...V`) over `Seq` values; the
//! parser's and generator's contracts are stated over these views.
use vstd::prelude::*;

verus! {

/// A plain path: an optional leading path separator and a list of plain
/// identifier segments.
#[derive(Debug, PartialEq, Eq)]
pub struct Path {
    pub leading_colon: bool,
    pub segments: Vec<String>,
}

/// View of [`Path`].
pub struct PathV {
    pub leading_colon: bool,
    pub segments: Seq<Seq<char>>,
}

impl View for Path {
    type V = PathV;

    open spec fn view(&self) -> PathV {
        PathV { leading_colon: self.leading_colon, segments: self.segments.deep_view() }
    }
}

impl DeepView for Path {
    type V = PathV;

    open spec fn deep_view(&self) -> PathV {
        self.view()
    }
}

/// The qualifying prefix of a qualified path: the `<Base as Trait>` part of
/// `<Base as Trait>::Associated`.
#[derive(Debug, PartialEq, Eq)]
pub struct QSelf {
    pub base: Path,
    pub as_trait: Option<Path>,
}

/// View of [`QSelf`].
pub struct QSelfV {
    pub base: PathV,
    pub as_trait: Option<PathV>,
}

impl View for QSelf {
    type V = QSelfV;

    open spec fn view(&self) -> QSelfV {
        QSelfV { base: self.base@, as_trait: self.as_trait.deep_view() }
    }
}

impl DeepView for QSelf {
    type V = QSelfV;

    open spec fn deep_view(&self) -> QSelfV {
        self.view()
    }
}

/// A type path: a path with an optional qualifying prefix.  A register's
/// element type is one of these; the parser rejects a qualifying prefix on a
/// register reference, because a reference must name a module-like
/// definition.
#[derive(Debug, PartialEq, Eq)]
pub struct TypePath {
    pub qself: Option<QSelf>,
    pub path: Path,
}

/// View of [`TypePath`].
pub struct TypePathV {
    pub qself: Option<QSelfV>,
    pub path: PathV,
}

impl View for TypePath {
    type V = TypePathV;

    open spec fn view(&self) -> TypePathV {
        TypePathV { qself: self.qself.deep_view(), path: self.path@ }
    }
}

impl DeepView for TypePath {
    type V = TypePathV;

    open spec fn deep_view(&self) -> TypePathV {
        self.view()
    }
}

/// Source metadata copied from the input (doc comments, conditional
/// compilation): an attribute style and the attribute's path.  The generator
/// threads attributes through unchanged and never inspects them; only the
/// parser looks at the path, to strip the bus-selection attribute.
#[derive(Debug, PartialEq, Eq)]
pub struct Attr {
    /// True for an inner attribute (one that applies to the whole
    /// invocation), false for an outer one.
    pub inner: bool,
    pub path: Path,
}

/// View of [`Attr`].
pub struct AttrV {
    pub inner: bool,
    pub path: PathV,
}

impl View for Attr {
    type V = AttrV;

    open spec fn view(&self) -> AttrV {
        AttrV { inner: self.inner, path: self.path@ }
    }
}

impl DeepView for Attr {
    type V = AttrV;

    open spec fn deep_view(&self) -> AttrV {
        self.view()
    }
}

/// A definition's visibility.
#[derive(Clone, Copy, Debug, PartialEq, Eq, Structural)]
pub enum Vis {
    Public,
    Inherited,
}

impl View for Vis {
    type V = Vis;

    open spec fn view(&self) -> Vis {
        *self
    }
}

impl DeepView for Vis {
    type V = Vis;

    open spec fn deep_view(&self) -> Vis {
        *self
    }
}

/// A per-bus integer literal, used for field offsets and padding sizes: a
/// single value applies uniformly to all buses, an array gives one value per
/// bus, matched positionally against the definition's bus list.
#[derive(Debug, PartialEq, Eq)]
pub enum PerBusInt {
    Array(Vec<u128>),
    Single(u128),
}

/// View of [`PerBusInt`].
pub enum PerBusIntV {
    Array(Seq<u128>),
    Single(u128),
}

impl View for PerBusInt {
    type V = PerBusIntV;

    open spec fn view(&self) -> PerBusIntV {
        match self {
            PerBusInt::Array(v) => PerBusIntV::Array(v.deep_view()),
            PerBusInt::Single(n) => PerBusIntV::Single(*n),
        }
    }
}

impl DeepView for PerBusInt {
    type V = PerBusIntV;

    open spec fn deep_view(&self) -> PerBusIntV {
        self.view()
    }
}

/// A single register descriptor: a name, an element type (a primitive value
/// type or a reference to another definition), the nested array sizes
/// (innermost first), and the capability list when this register defines its
/// own element (`None` when it references another definition).
#[derive(Debug, PartialEq, Eq)]
pub struct RegisterDef {
    pub name: String,
    pub element_type: TypePath,
    pub array_sizes: Vec<u128>,
    pub operations: Option<Vec<Path>>,
}

/// View of [`RegisterDef`].
pub struct RegisterDefV {
    pub name: Seq<char>,
    pub element_type: TypePathV,
    pub array_sizes: Seq<u128>,
    pub operations: Option<Seq<PathV>>,
}

impl View for RegisterDef {
    type V = RegisterDefV;

    open spec fn view(&self) -> RegisterDefV {
        RegisterDefV {
            name: self.name@,
            element_type: self.element_type@,
            array_sizes: self.array_sizes.deep_view(),
            operations: self.operations.deep_view(),
        }
    }
}

impl DeepView for RegisterDef {
    type V = RegisterDefV;

    open spec fn deep_view(&self) -> RegisterDefV {
        self.view()
    }
}

/// Contents of a field: reserved space that generates nothing, or a named
/// register.
#[derive(Debug, PartialEq, Eq)]
pub enum FieldDef {
    Padding(PerBusInt),
    Register(RegisterDef),
}

/// View of [`FieldDef`].
pub enum FieldDefV {
    Padding(PerBusIntV),
    Register(RegisterDefV),
}

impl View for FieldDef {
    type V = FieldDefV;

    open spec fn view(&self) -> FieldDefV {
        match self {
            FieldDef::Padding(p) => FieldDefV::Padding(p@),
            FieldDef::Register(r) => FieldDefV::Register(r@),
        }
    }
}

impl DeepView for FieldDef {
    type V = FieldDefV;

    open spec fn deep_view(&self) -> FieldDefV {
        self.view()
    }
}

/// One entry inside a register block: copied metadata, the field's byte
/// offset on each bus, and the field itself.
#[derive(Debug, PartialEq, Eq)]
pub struct Field {
    pub attributes: Vec<Attr>,
    pub offsets: PerBusInt,
    pub field_def: FieldDef,
}

/// View of [`Field`].
pub struct FieldV {
    pub attributes: Seq<AttrV>,
    pub offsets: PerBusIntV,
    pub field_def: FieldDefV,
}

impl View for Field {
    type V = FieldV;

    open spec fn view(&self) -> FieldV {
        FieldV {
            attributes: self.attributes.deep_view(),
            offsets: self.offsets@,
            field_def: self.field_def@,
        }
    }
}

impl DeepView for Field {
    type V = FieldV;

    open spec fn deep_view(&self) -> FieldV {
        self.view()
    }
}

/// The part of a definition that begins with its name: a standalone register
/// descriptor, or a named block of fields.
#[derive(Debug, PartialEq, Eq)]
pub enum Value {
    Block { name: String, fields: Vec<Field> },
    Single(RegisterDef),
}

/// View of [`Value`].
pub enum ValueV {
    Block { name: Seq<char>, fields: Seq<FieldV> },
    Single(RegisterDefV),
}

impl View for Value {
    type V = ValueV;

    open spec fn view(&self) -> ValueV {
        match self {
            Value::Block { name, fields } => ValueV::Block {
                name: name@,
                fields: fields.deep_view(),
            },
            Value::Single(r) => ValueV::Single(r@),
        }
    }
}

impl DeepView for Value {
    type V = ValueV;

    open spec fn deep_view(&self) -> ValueV {
        self.view()
    }
}

/// One named top-level entry of the input: copied metadata, the buses this
/// definition supports, a visibility, and the definition's value.
#[derive(Debug, PartialEq, Eq)]
pub struct Definition {
    pub attributes: Vec<Attr>,
    pub buses: Vec<TypePath>,
    pub visibility: Vis,
    pub value: Value,
}

/// View of [`Definition`].
pub struct DefinitionV {
    pub attributes: Seq<AttrV>,
    pub buses: Seq<TypePathV>,
    pub visibility: Vis,
    pub value: ValueV,
}

impl View for Definition {
    type V = DefinitionV;

    open spec fn view(&self) -> DefinitionV {
        DefinitionV {
            attributes: self.attributes.deep_view(),
            buses: self.buses.deep_view(),
            visibility: self.visibility,
            value: self.value@,
        }
    }
}

impl DeepView for Definition {
    type V = DefinitionV;

    open spec fn deep_view(&self) -> DefinitionV {
        self.view()
    }
}

/// The full input of one invocation: the path under which generated code
/// reaches this library, and the ordered definitions.
#[derive(Debug, PartialEq, Eq)]
pub struct Input {
    pub tock_registers: Path,
    pub definitions: Vec<Definition>,
}

/// View of [`Input`].
pub struct InputV {
    pub tock_registers: PathV,
    pub definitions: Seq<DefinitionV>,
}

impl View for Input {
    type V = InputV;

    open spec fn view(&self) -> InputV {
        InputV {
            tock_registers: self.tock_registers@,
            definitions: self.definitions.deep_view(),
        }
    }
}

impl DeepView for Input {
    type V = InputV;

    open spec fn deep_view(&self) -> InputV {
        self.view()
    }
}

} // verus!
