//! Parser tests: the grammar of fields, per-bus integers and register
//! descriptors, and the whole-invocation parse.
use tock_registers::ast::Attr;
use tock_registers::ast::Definition;
use tock_registers::ast::Field;
use tock_registers::ast::FieldDef;
use tock_registers::ast::Input;
use tock_registers::ast::Path;
use tock_registers::ast::PerBusInt;
use tock_registers::ast::QSelf;
use tock_registers::ast::RegisterDef;
use tock_registers::ast::TypePath;
use tock_registers::ast::Value;
use tock_registers::ast::Vis;
use tock_registers::token::Delim;
use tock_registers::token::Tok;

fn ident(s: &str) -> Tok {
    Tok::Ident(s.to_owned())
}

fn path(segments: &[&str]) -> Path {
    Path {
        leading_colon: false,
        segments: segments.iter().map(|s| (*s).to_owned()).collect(),
    }
}

fn type_path(name: &str) -> TypePath {
    TypePath { qself: None, path: path(&[name]) }
}

#[test]
fn field_def() {
    // `_: 3` is padding of size 3, not a register named `_`.
    let toks = vec![Tok::Underscore, Tok::Colon, Tok::Lit(3)];
    let (field, pos) = FieldDef::parse(&toks, 0).unwrap();
    assert_eq!(field, FieldDef::Padding(PerBusInt::Single(3)));
    assert_eq!(pos, 3);

    // `a: status` is a pure reference: no array sizes, no capability list.
    let toks = vec![ident("a"), Tok::Colon, ident("status")];
    let (field, _) = FieldDef::parse(&toks, 0).unwrap();
    assert_eq!(
        field,
        FieldDef::Register(RegisterDef {
            name: "a".to_owned(),
            element_type: type_path("status"),
            array_sizes: vec![],
            operations: None,
        })
    );
}

#[test]
fn per_bus_int() {
    // `0x0` applies uniformly to all buses.
    let toks = vec![Tok::Lit(0x0)];
    let (offsets, _) = PerBusInt::parse(&toks, 0).unwrap();
    assert_eq!(offsets, PerBusInt::Single(0x0));

    // `[1, 2, 1]` gives one offset per bus, positionally.
    let toks = vec![
        Tok::Open(Delim::Bracket),
        Tok::Lit(1),
        Tok::Comma,
        Tok::Lit(2),
        Tok::Comma,
        Tok::Lit(1),
        Tok::Close(Delim::Bracket),
    ];
    let (offsets, _) = PerBusInt::parse(&toks, 0).unwrap();
    let expected = vec![1, 2, 1];
    assert_eq!(offsets, PerBusInt::Array(expected));
}

#[test]
fn register_def() {
    // `a: <Foo as Bar>::Associated { Read, Write }` — a qualified path is
    // allowed when a capability list is present.
    let toks = vec![
        ident("a"),
        Tok::Colon,
        Tok::Lt,
        ident("Foo"),
        Tok::KwAs,
        ident("Bar"),
        Tok::Gt,
        Tok::PathSep,
        ident("Associated"),
        Tok::Open(Delim::Brace),
        ident("Read"),
        Tok::Comma,
        ident("Write"),
        Tok::Close(Delim::Brace),
    ];
    let (register, _) = RegisterDef::parse(&toks, 0).unwrap();
    let expected_name = "a".to_owned();
    assert_eq!(register.name, expected_name);
    let expected_type = TypePath {
        qself: Some(QSelf { base: path(&["Foo"]), as_trait: Some(path(&["Bar"])) }),
        path: path(&["Associated"]),
    };
    assert_eq!(register.element_type, expected_type);
    assert_eq!(register.array_sizes, []);
    let expected_operations = vec![path(&["Read"]), path(&["Write"])];
    assert_eq!(register.operations, Some(expected_operations));

    let toks = vec![ident("a"), Tok::Colon, ident("status")];
    let (register, _) = RegisterDef::parse(&toks, 0).unwrap();
    assert_eq!(register.name, expected_name);
    let expected_type = type_path("status");
    assert_eq!(register.element_type, expected_type);
    assert_eq!(register.array_sizes, []);
    assert_eq!(register.operations, None);

    // `a: [[[status; 2]; 3]; 4]` — sizes are listed innermost first.
    let toks = vec![
        ident("a"),
        Tok::Colon,
        Tok::Open(Delim::Bracket),
        Tok::Open(Delim::Bracket),
        Tok::Open(Delim::Bracket),
        ident("status"),
        Tok::Semi,
        Tok::Lit(2),
        Tok::Close(Delim::Bracket),
        Tok::Semi,
        Tok::Lit(3),
        Tok::Close(Delim::Bracket),
        Tok::Semi,
        Tok::Lit(4),
        Tok::Close(Delim::Bracket),
    ];
    let (register, _) = RegisterDef::parse(&toks, 0).unwrap();
    assert_eq!(register.name, expected_name);
    let expected_type = type_path("status");
    assert_eq!(register.element_type, expected_type);
    let expected_sizes = [2, 3, 4];
    assert_eq!(register.array_sizes, expected_sizes);
    assert_eq!(register.operations, None);

    // The same qualified path without a capability list is rejected.
    let toks = vec![
        ident("a"),
        Tok::Colon,
        Tok::Lt,
        ident("Foo"),
        Tok::KwAs,
        ident("Bar"),
        Tok::Gt,
        Tok::PathSep,
        ident("Associated"),
    ];
    let error = RegisterDef::parse(&toks, 0).unwrap_err();
    assert!(error.message().contains("reference must be to a mod"));
}

#[test]
fn value_needs_colon_or_brace() {
    // After a definition's name, only `:` or `{` may follow.
    let toks = vec![ident("a"), Tok::Semi];
    let error = Value::parse(&toks, 0).unwrap_err();
    assert!(error.message().contains("expected one of: `:`, `{`"));
}

#[test]
fn value_block_fields_in_order() {
    // `foo { 0 => c: u8 { Read }, 1 => _: 1, 2 => d: a }`
    let toks = vec![
        ident("foo"),
        Tok::Open(Delim::Brace),
        Tok::Lit(0),
        Tok::FatArrow,
        ident("c"),
        Tok::Colon,
        ident("u8"),
        Tok::Open(Delim::Brace),
        ident("Read"),
        Tok::Close(Delim::Brace),
        Tok::Comma,
        Tok::Lit(1),
        Tok::FatArrow,
        Tok::Underscore,
        Tok::Colon,
        Tok::Lit(1),
        Tok::Comma,
        Tok::Lit(2),
        Tok::FatArrow,
        ident("d"),
        Tok::Colon,
        ident("a"),
        Tok::Close(Delim::Brace),
    ];
    let (value, pos) = Value::parse(&toks, 0).unwrap();
    assert_eq!(pos, toks.len());
    match value {
        Value::Block { name, fields } => {
            assert_eq!(name, "foo".to_owned());
            assert_eq!(fields.len(), 3);
            assert_eq!(fields[0].offsets, PerBusInt::Single(0));
            assert_eq!(
                fields[0].field_def,
                FieldDef::Register(RegisterDef {
                    name: "c".to_owned(),
                    element_type: type_path("u8"),
                    array_sizes: vec![],
                    operations: Some(vec![path(&["Read"])]),
                })
            );
            assert_eq!(fields[1].offsets, PerBusInt::Single(1));
            assert_eq!(fields[1].field_def, FieldDef::Padding(PerBusInt::Single(1)));
            assert_eq!(fields[2].offsets, PerBusInt::Single(2));
            assert_eq!(
                fields[2].field_def,
                FieldDef::Register(RegisterDef {
                    name: "d".to_owned(),
                    element_type: type_path("a"),
                    array_sizes: vec![],
                    operations: None,
                })
            );
        }
        Value::Single(_) => panic!("expected a block"),
    }
}

#[test]
fn input_assigns_default_bus_and_strips_buses_attr() {
    // `::tock_registers #![buses] a: u8 { Read },`
    let toks = vec![
        Tok::PathSep,
        ident("tock_registers"),
        Tok::Attr(Attr { inner: true, path: path(&["buses"]) }),
        Tok::Attr(Attr { inner: true, path: path(&["doc"]) }),
        ident("a"),
        Tok::Colon,
        ident("u8"),
        Tok::Open(Delim::Brace),
        ident("Read"),
        Tok::Close(Delim::Brace),
        Tok::Comma,
    ];
    let input = Input::parse(&toks).unwrap();
    assert_eq!(
        input.tock_registers,
        Path { leading_colon: true, segments: vec!["tock_registers".to_owned()] }
    );
    assert_eq!(input.definitions.len(), 1);
    let definition = &input.definitions[0];
    // The buses attribute is stripped; the doc attribute is kept, converted
    // to an outer attribute; every definition gets the single default bus.
    assert_eq!(definition.attributes, vec![Attr { inner: false, path: path(&["doc"]) }]);
    assert_eq!(definition.buses, vec![type_path("Mmio32")]);
    assert_eq!(definition.visibility, Vis::Inherited);
    match &definition.value {
        Value::Single(register) => {
            assert_eq!(register.name, "a".to_owned());
            assert_eq!(register.operations, Some(vec![path(&["Read"])]));
        }
        Value::Block { .. } => panic!("expected a single register"),
    }
}

#[test]
fn input_parses_visibility_and_trailing_comma() {
    // `::tr pub b: [a; 2]`
    let toks = vec![
        Tok::PathSep,
        ident("tr"),
        Tok::KwPub,
        ident("b"),
        Tok::Colon,
        Tok::Open(Delim::Bracket),
        ident("a"),
        Tok::Semi,
        Tok::Lit(2),
        Tok::Close(Delim::Bracket),
    ];
    let input = Input::parse(&toks).unwrap();
    assert_eq!(input.definitions.len(), 1);
    let definition = &input.definitions[0];
    assert_eq!(definition.visibility, Vis::Public);
    match &definition.value {
        Value::Single(register) => {
            assert_eq!(register.name, "b".to_owned());
            assert_eq!(register.element_type, type_path("a"));
            assert_eq!(register.array_sizes, vec![2]);
            assert_eq!(register.operations, None);
        }
        Value::Block { .. } => panic!("expected a single register"),
    }
}

#[test]
fn parse_is_deterministic_on_equal_tokens() {
    let make = || {
        vec![
            Tok::PathSep,
            ident("tr"),
            ident("a"),
            Tok::Colon,
            ident("u8"),
            Tok::Open(Delim::Brace),
            ident("Read"),
            Tok::Comma,
            ident("Write"),
            Tok::Close(Delim::Brace),
        ]
    };
    let one = Input::parse(&make()).unwrap();
    let two = Input::parse(&make()).unwrap();
    assert_eq!(one, two);
}

#[test]
fn unbalanced_or_malformed_input_is_rejected() {
    // A lone path is an invocation with no definitions.
    let empty = Input::parse(&vec![ident("a")]).unwrap();
    assert_eq!(empty.definitions.len(), 0);
    // An empty token sequence lacks the library path and is rejected.
    assert!(Input::parse(&Vec::new()).is_err());
    // Missing the size after `;`.
    let toks = vec![
        ident("a"),
        Tok::Colon,
        Tok::Open(Delim::Bracket),
        ident("u8"),
        Tok::Semi,
        Tok::Close(Delim::Bracket),
    ];
    assert!(RegisterDef::parse(&toks, 0).is_err());
    // A definition must be followed by a comma or the end of the input.
    let toks = vec![Tok::PathSep, ident("tr"), ident("a"), Tok::Colon, ident("u8"), ident("b")];
    assert!(Input::parse(&toks).is_err());
}

#[test]
fn field_with_arrow_and_attributes() {
    // `#[doc] [6, 10] => e: u8 { Read }`
    let toks = vec![
        Tok::Attr(Attr { inner: false, path: path(&["doc"]) }),
        Tok::Open(Delim::Bracket),
        Tok::Lit(6),
        Tok::Comma,
        Tok::Lit(10),
        Tok::Close(Delim::Bracket),
        Tok::FatArrow,
        ident("e"),
        Tok::Colon,
        ident("u8"),
        Tok::Open(Delim::Brace),
        ident("Read"),
        Tok::Close(Delim::Brace),
    ];
    let (field, pos) = Field::parse(&toks, 0).unwrap();
    assert_eq!(pos, toks.len());
    assert_eq!(field.attributes, vec![Attr { inner: false, path: path(&["doc"]) }]);
    assert_eq!(field.offsets, PerBusInt::Array(vec![6, 10]));
    match field.field_def {
        FieldDef::Register(register) => assert_eq!(register.name, "e".to_owned()),
        FieldDef::Padding(_) => panic!("expected a register"),
    }
}

#[test]
fn definition_parses_with_empty_buses() {
    // Definitions parse with empty bus lists; Input::parse fills them in.
    let toks = vec![ident("a"), Tok::Colon, ident("u8"), Tok::Open(Delim::Brace), Tok::Close(
        Delim::Brace,
    )];
    let (definition, _) = Definition::parse(&toks, 0).unwrap();
    assert_eq!(definition.buses, Vec::<TypePath>::new());
    assert_eq!(definition.attributes, Vec::<Attr>::new());
}
