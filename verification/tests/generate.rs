//! Generator tests: offset selection by bus position, the emission cases,
//! and the whole-invocation pipeline.
use tock_registers::ast::Attr;
use tock_registers::ast::Definition;
use tock_registers::ast::Field;
use tock_registers::ast::FieldDef;
use tock_registers::ast::Input;
use tock_registers::ast::Path;
use tock_registers::ast::PerBusInt;
use tock_registers::ast::RegisterDef;
use tock_registers::ast::TypePath;
use tock_registers::ast::Value;
use tock_registers::ast::Vis;
use tock_registers::generate::generate;
use tock_registers::generate::registers;
use tock_registers::generate::BusBound;
use tock_registers::generate::GenBody;
use tock_registers::generate::InterfaceBound;
use tock_registers::generate::RealLeaf;
use tock_registers::generate::RealTy;
use tock_registers::token::Delim;
use tock_registers::token::Tok;

fn ident(s: &str) -> Tok {
    Tok::Ident(s.to_owned())
}

fn path(segments: &[&str]) -> Path {
    Path {
        leading_colon: false,
        segments: segments.iter().map(|s| (*s).to_owned()).collect(),
    }
}

fn type_path(name: &str) -> TypePath {
    TypePath { qself: None, path: path(&[name]) }
}

fn register(name: &str, element: &str, sizes: &[u128], ops: Option<&[&str]>) -> RegisterDef {
    RegisterDef {
        name: name.to_owned(),
        element_type: type_path(element),
        array_sizes: sizes.to_vec(),
        operations: ops.map(|o| o.iter().map(|p| path(&[p])).collect()),
    }
}

fn input(tock_registers: &str) -> Input {
    Input {
        tock_registers: path(&[tock_registers]),
        definitions: vec![],
    }
}

/// A block with two buses: every offset constant is the literal supplied
/// positionally for that bus's index, and a single literal is broadcast.
#[test]
fn block_selects_offsets_by_bus_position() {
    let definition = Definition {
        attributes: vec![],
        buses: vec![type_path("Mmio32"), type_path("Mmio64")],
        visibility: Vis::Public,
        value: Value::Block {
            name: "foo".to_owned(),
            fields: vec![
                Field {
                    attributes: vec![],
                    offsets: PerBusInt::Array(vec![6, 10]),
                    field_def: FieldDef::Register(register("c", "u8", &[], Some(&["Read"]))),
                },
                Field {
                    attributes: vec![],
                    offsets: PerBusInt::Single(1),
                    field_def: FieldDef::Padding(PerBusInt::Single(1)),
                },
                Field {
                    attributes: vec![],
                    offsets: PerBusInt::Single(3),
                    field_def: FieldDef::Register(register("d", "a", &[], None)),
                },
            ],
        },
    };
    let module = generate(&input("tr"), &definition);
    assert_eq!(module.name, "foo".to_owned());
    match module.body {
        GenBody::Block(block) => {
            // One interface accessor and one bus bound per register field,
            // padding generates nothing, order is kept.
            assert_eq!(block.interface_fields.len(), 2);
            assert_eq!(block.interface_fields[0].name, "c".to_owned());
            assert_eq!(
                block.interface_fields[0].bound,
                InterfaceBound::Register {
                    element_type: type_path("u8"),
                    operations: vec![path(&["Read"])],
                }
            );
            assert_eq!(block.interface_fields[1].name, "d".to_owned());
            assert_eq!(block.interface_fields[1].bound, InterfaceBound::Module(type_path("a")));
            assert_eq!(
                block.bus_bounds,
                vec![BusBound::Data(type_path("u8")), BusBound::Module(type_path("a"))]
            );
            // One bus implementation per bus; the literal for each register
            // is selected by the bus's position, single literals broadcast.
            assert_eq!(block.bus_impls.len(), 2);
            assert_eq!(block.bus_impls[0].bus, type_path("Mmio32"));
            assert_eq!(block.bus_impls[0].offsets.len(), 2);
            assert_eq!(block.bus_impls[0].offsets[0].register, "c".to_owned());
            assert_eq!(block.bus_impls[0].offsets[0].value, 6);
            assert_eq!(block.bus_impls[0].offsets[1].register, "d".to_owned());
            assert_eq!(block.bus_impls[0].offsets[1].value, 3);
            assert_eq!(block.bus_impls[1].bus, type_path("Mmio64"));
            assert_eq!(block.bus_impls[1].offsets[0].value, 10);
            assert_eq!(block.bus_impls[1].offsets[1].value, 3);
            assert_eq!(block.buses, vec![type_path("Mmio32"), type_path("Mmio64")]);
        }
        _ => panic!("expected a block"),
    }
}

/// Swapping the buses' positions swaps which literal each bus receives.
#[test]
fn bus_position_decides_selected_literal() {
    let make_fields = || {
        vec![Field {
            attributes: vec![],
            offsets: PerBusInt::Array(vec![6, 10]),
            field_def: FieldDef::Register(register("c", "u8", &[], Some(&["Read"]))),
        }]
    };
    let forward = Definition {
        attributes: vec![],
        buses: vec![type_path("Mmio32"), type_path("Mmio64")],
        visibility: Vis::Inherited,
        value: Value::Block { name: "foo".to_owned(), fields: make_fields() },
    };
    let swapped = Definition {
        attributes: vec![],
        buses: vec![type_path("Mmio64"), type_path("Mmio32")],
        visibility: Vis::Inherited,
        value: Value::Block { name: "foo".to_owned(), fields: make_fields() },
    };
    let fw = generate(&input("tr"), &forward);
    let sw = generate(&input("tr"), &swapped);
    match (fw.body, sw.body) {
        (GenBody::Block(fw), GenBody::Block(sw)) => {
            assert_eq!(fw.bus_impls[0].bus, type_path("Mmio32"));
            assert_eq!(fw.bus_impls[0].offsets[0].value, 6);
            assert_eq!(sw.bus_impls[0].bus, type_path("Mmio64"));
            assert_eq!(sw.bus_impls[0].offsets[0].value, 6);
            assert_eq!(sw.bus_impls[1].bus, type_path("Mmio32"));
            assert_eq!(sw.bus_impls[1].offsets[0].value, 10);
        }
        _ => panic!("expected blocks"),
    }
}

/// A leaf register definition without array sizes: the accessor record is
/// the public name itself and there is no array alias.
#[test]
fn single_definition_without_arrays() {
    let definition = Definition {
        attributes: vec![Attr { inner: false, path: path(&["doc"]) }],
        buses: vec![type_path("Mmio32")],
        visibility: Vis::Public,
        value: Value::Single(register("a", "u8", &[], Some(&["Read", "Write"]))),
    };
    let module = generate(&input("tr"), &definition);
    assert_eq!(module.name, "a".to_owned());
    assert_eq!(module.tock_registers, path(&["tr"]));
    assert_eq!(module.attributes, vec![Attr { inner: false, path: path(&["doc"]) }]);
    match module.body {
        GenBody::SingleDef(single) => {
            assert_eq!(single.element_type, type_path("u8"));
            assert_eq!(single.operations, vec![path(&["Read"]), path(&["Write"])]);
            assert_eq!(single.buses, vec![type_path("Mmio32")]);
            assert!(!single.wrapped);
            assert_eq!(single.real_alias, None);
        }
        _ => panic!("expected a leaf definition"),
    }
}

/// A leaf register definition with array sizes wraps the element accessor
/// from the innermost size outward: the outermost wrapper carries the last
/// size.
#[test]
fn single_definition_wraps_innermost_first() {
    let definition = Definition {
        attributes: vec![],
        buses: vec![type_path("Mmio32")],
        visibility: Vis::Inherited,
        value: Value::Single(register("a", "u8", &[2, 3, 4], Some(&["Read"]))),
    };
    let module = generate(&input("tr"), &definition);
    match module.body {
        GenBody::SingleDef(single) => {
            assert!(single.wrapped);
            assert_eq!(single.array_sizes, vec![2, 3, 4]);
            let expected = RealTy::Array(
                Box::new(RealTy::Array(
                    Box::new(RealTy::Array(Box::new(RealTy::Leaf(RealLeaf::Element)), 2)),
                    3,
                )),
                4,
            );
            assert_eq!(single.real_alias, Some(expected));
        }
        _ => panic!("expected a leaf definition"),
    }
}

/// A reference register definition re-exports the referenced accessor,
/// wrapped per its own array sizes.
#[test]
fn single_reference_wraps_referenced_accessor() {
    let definition = Definition {
        attributes: vec![],
        buses: vec![type_path("Mmio32")],
        visibility: Vis::Public,
        value: Value::Single(register("b", "a", &[2], None)),
    };
    let module = generate(&input("tr"), &definition);
    assert_eq!(module.name, "b".to_owned());
    match module.body {
        GenBody::SingleRef(reference) => {
            assert_eq!(reference.element_type, type_path("a"));
            assert_eq!(reference.array_sizes, vec![2]);
            assert_eq!(reference.buses, vec![type_path("Mmio32")]);
            assert_eq!(
                reference.real,
                RealTy::Array(Box::new(RealTy::Leaf(RealLeaf::Ref(type_path("a")))), 2)
            );
        }
        _ => panic!("expected a reference"),
    }
}

/// The whole pipeline: tokens in, one namespace per definition out, in
/// declaration order.
#[test]
fn registers_generates_in_declaration_order() {
    let toks = vec![
        Tok::PathSep,
        ident("tock_registers"),
        ident("a"),
        Tok::Colon,
        ident("u8"),
        Tok::Open(Delim::Brace),
        ident("Read"),
        Tok::Comma,
        ident("Write"),
        Tok::Close(Delim::Brace),
        Tok::Comma,
        Tok::KwPub,
        ident("b"),
        Tok::Colon,
        Tok::Open(Delim::Bracket),
        ident("a"),
        Tok::Semi,
        Tok::Lit(2),
        Tok::Close(Delim::Bracket),
        Tok::Comma,
    ];
    let modules = registers(&toks).unwrap();
    assert_eq!(modules.len(), 2);
    assert_eq!(modules[0].name, "a".to_owned());
    assert!(matches!(modules[0].body, GenBody::SingleDef(_)));
    assert_eq!(modules[1].name, "b".to_owned());
    assert!(matches!(modules[1].body, GenBody::SingleRef(_)));
    // The hard-coded single default bus reaches the generated namespaces.
    match &modules[0].body {
        GenBody::SingleDef(single) => assert_eq!(single.buses, vec![type_path("Mmio32")]),
        _ => unreachable!(),
    }
}

/// A register field with fewer per-bus offsets than declared buses aborts
/// the invocation.
#[test]
fn registers_rejects_short_offset_list() {
    // With the single hard-coded bus, an empty offset array is the only way
    // to supply fewer literals than buses.
    let toks = vec![
        Tok::PathSep,
        ident("tr"),
        ident("foo"),
        Tok::Open(Delim::Brace),
        Tok::Open(Delim::Bracket),
        Tok::Close(Delim::Bracket),
        Tok::FatArrow,
        ident("c"),
        Tok::Colon,
        ident("u8"),
        Tok::Open(Delim::Brace),
        ident("Read"),
        Tok::Close(Delim::Brace),
        Tok::Close(Delim::Brace),
    ];
    let error = registers(&toks).unwrap_err();
    assert!(error.message().contains("per-bus offset list is shorter"));
}

/// A grammar error aborts the invocation with no partial output.
#[test]
fn registers_rejects_grammar_errors() {
    let toks = vec![Tok::PathSep, ident("tr"), ident("a"), Tok::Semi];
    assert!(registers(&toks).is_err());
    let toks = vec![
        Tok::PathSep,
        ident("tr"),
        ident("a"),
        Tok::Colon,
        Tok::Lt,
        ident("Foo"),
        Tok::KwAs,
        ident("Bar"),
        Tok::Gt,
        Tok::PathSep,
        ident("Associated"),
    ];
    let error = registers(&toks).unwrap_err();
    assert!(error.message().contains("reference must be to a mod"));
}

/// A whole realistic invocation: standalone registers, register arrays,
/// references, and two blocks, one nesting the other by name.
#[test]
fn registers_full_invocation() {
    let toks = vec![
        Tok::PathSep,
        ident("tock_registers"),
        // status: u8 { Read },
        ident("status"),
        Tok::Colon,
        ident("u8"),
        Tok::Open(Delim::Brace),
        ident("Read"),
        Tok::Close(Delim::Brace),
        Tok::Comma,
        // buttons: [u8; 4] { Read },
        ident("buttons"),
        Tok::Colon,
        Tok::Open(Delim::Bracket),
        ident("u8"),
        Tok::Semi,
        Tok::Lit(4),
        Tok::Close(Delim::Bracket),
        Tok::Open(Delim::Brace),
        ident("Read"),
        Tok::Close(Delim::Brace),
        Tok::Comma,
        // status_ref: status,
        ident("status_ref"),
        Tok::Colon,
        ident("status"),
        Tok::Comma,
        // status_array: [status; 4],
        ident("status_array"),
        Tok::Colon,
        Tok::Open(Delim::Bracket),
        ident("status"),
        Tok::Semi,
        Tok::Lit(4),
        Tok::Close(Delim::Bracket),
        Tok::Comma,
        // simple_foo { 0x0 => simple_status: status, 0x1 => simple_buttons: buttons,
        //              0x5 => control: u16 { Read, Write }, },
        ident("simple_foo"),
        Tok::Open(Delim::Brace),
        Tok::Lit(0x0),
        Tok::FatArrow,
        ident("simple_status"),
        Tok::Colon,
        ident("status"),
        Tok::Comma,
        Tok::Lit(0x1),
        Tok::FatArrow,
        ident("simple_buttons"),
        Tok::Colon,
        ident("buttons"),
        Tok::Comma,
        Tok::Lit(0x5),
        Tok::FatArrow,
        ident("control"),
        Tok::Colon,
        ident("u16"),
        Tok::Open(Delim::Brace),
        ident("Read"),
        Tok::Comma,
        ident("Write"),
        Tok::Close(Delim::Brace),
        Tok::Comma,
        Tok::Close(Delim::Brace),
        Tok::Comma,
        // complex_foo { 0x0 => nested_foo: simple_foo, 0x7 => status_array: [status; 2], },
        ident("complex_foo"),
        Tok::Open(Delim::Brace),
        Tok::Lit(0x0),
        Tok::FatArrow,
        ident("nested_foo"),
        Tok::Colon,
        ident("simple_foo"),
        Tok::Comma,
        Tok::Lit(0x7),
        Tok::FatArrow,
        ident("status_array"),
        Tok::Colon,
        Tok::Open(Delim::Bracket),
        ident("status"),
        Tok::Semi,
        Tok::Lit(2),
        Tok::Close(Delim::Bracket),
        Tok::Comma,
        Tok::Close(Delim::Brace),
        Tok::Comma,
    ];
    let modules = registers(&toks).unwrap();
    assert_eq!(modules.len(), 6);
    assert_eq!(modules[0].name, "status".to_owned());
    assert!(matches!(modules[0].body, GenBody::SingleDef(_)));
    assert_eq!(modules[1].name, "buttons".to_owned());
    match &modules[1].body {
        GenBody::SingleDef(single) => {
            assert_eq!(single.array_sizes, vec![4]);
            assert!(single.wrapped);
        }
        _ => panic!("expected a leaf definition"),
    }
    assert_eq!(modules[2].name, "status_ref".to_owned());
    assert!(matches!(modules[2].body, GenBody::SingleRef(_)));
    assert_eq!(modules[3].name, "status_array".to_owned());
    assert!(matches!(modules[3].body, GenBody::SingleRef(_)));
    assert_eq!(modules[4].name, "simple_foo".to_owned());
    match &modules[4].body {
        GenBody::Block(block) => {
            assert_eq!(block.interface_fields.len(), 3);
            assert_eq!(block.bus_impls.len(), 1);
            let offsets = &block.bus_impls[0].offsets;
            assert_eq!(offsets[0].register, "simple_status".to_owned());
            assert_eq!(offsets[0].value, 0x0);
            assert_eq!(offsets[1].register, "simple_buttons".to_owned());
            assert_eq!(offsets[1].value, 0x1);
            assert_eq!(offsets[2].register, "control".to_owned());
            assert_eq!(offsets[2].value, 0x5);
        }
        _ => panic!("expected a block"),
    }
    assert_eq!(modules[5].name, "complex_foo".to_owned());
    match &modules[5].body {
        GenBody::Block(block) => {
            assert_eq!(block.interface_fields.len(), 2);
            assert_eq!(block.interface_fields[0].name, "nested_foo".to_owned());
            assert_eq!(
                block.interface_fields[0].bound,
                InterfaceBound::Module(type_path("simple_foo"))
            );
            assert_eq!(block.bus_impls[0].offsets[1].value, 0x7);
        }
        _ => panic!("expected a block"),
    }
}
