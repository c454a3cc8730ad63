//! The input parser.
//!
//! The grammar of the declarative language, written as total specification
//! functions over a token sequence: each returns the parsed entity and the
//! position after it, or `None` on a grammar violation.  Parsing a given
//! token sequence is thereby a mathematical function — re-parsing an
//! identical sequence yields a structurally equal tree — and every executable
//! parser below is proved to return exactly what its specification function
//! says.
use vstd::prelude::*;

use crate::ast::Attr;
use crate::ast::AttrV;
use crate::ast::Definition;
use crate::ast::DefinitionV;
use crate::ast::Field;
use crate::ast::FieldDef;
use crate::ast::FieldDefV;
use crate::ast::FieldV;
use crate::ast::Input;
use crate::ast::InputV;
use crate::ast::Path;
use crate::ast::PathV;
use crate::ast::PerBusInt;
use crate::ast::PerBusIntV;
use crate::ast::QSelf;
use crate::ast::QSelfV;
use crate::ast::RegisterDef;
use crate::ast::RegisterDefV;
use crate::ast::TypePath;
use crate::ast::TypePathV;
use crate::ast::Value;
use crate::ast::ValueV;
use crate::ast::Vis;
use crate::token::Delim;
use crate::token::Tok;

verus! {

/// Zero or more `:: segment` pairs after a path's first segment.
pub open spec fn sp_path_more(t: Seq<Tok>, i: int) -> Option<(Seq<Seq<char>>, int)>
    decreases t.len() - i,
{
    if 0 <= i && i + 1 < t.len() && (t[i] matches Tok::PathSep) {
        match t[i + 1] {
            Tok::Ident(s) => match sp_path_more(t, i + 2) {
                Some((rest, j)) => Some((seq![s@] + rest, j)),
                None => None,
            },
            _ => None,
        }
    } else if 0 <= i && i < t.len() && (t[i] matches Tok::PathSep) {
        None
    } else {
        Some((seq![], i))
    }
}

/// A plain path: an optional leading `::`, then `::`-separated segments.
pub open spec fn sp_path(t: Seq<Tok>, i: int) -> Option<(PathV, int)> {
    let leading = 0 <= i && i + 1 < t.len() && (t[i] matches Tok::PathSep);
    let j = if leading {
        i + 1
    } else {
        i
    };
    if 0 <= j && j < t.len() {
        match t[j] {
            Tok::Ident(s) => match sp_path_more(t, j + 1) {
                Some((rest, k)) => Some(
                    (PathV { leading_colon: leading, segments: seq![s@] + rest }, k),
                ),
                None => None,
            },
            _ => None,
        }
    } else {
        None
    }
}

/// A type path: either `< Base (as Trait)? > :: path` or a plain path.
pub open spec fn sp_type_path(t: Seq<Tok>, i: int) -> Option<(TypePathV, int)> {
    if 0 <= i && i < t.len() && (t[i] matches Tok::Lt) {
        match sp_path(t, i + 1) {
            Some((base, j)) => {
                if j < t.len() && (t[j] matches Tok::KwAs) {
                    match sp_path(t, j + 1) {
                        Some((tr, k)) => sp_qualified_tail(
                            t,
                            k,
                            QSelfV { base, as_trait: Some(tr) },
                        ),
                        None => None,
                    }
                } else {
                    sp_qualified_tail(t, j, QSelfV { base, as_trait: None })
                }
            },
            None => None,
        }
    } else {
        match sp_path(t, i) {
            Some((p, j)) => Some((TypePathV { qself: None, path: p }, j)),
            None => None,
        }
    }
}

/// The `> :: path` tail of a qualified path, `q` being the prefix parsed so
/// far.
pub open spec fn sp_qualified_tail(t: Seq<Tok>, i: int, q: QSelfV) -> Option<(TypePathV, int)> {
    if 0 <= i && i + 1 < t.len() && (t[i] matches Tok::Gt) && (t[i + 1] matches Tok::PathSep) {
        match sp_path(t, i + 2) {
            Some((p, j)) => Some((TypePathV { qself: Some(q), path: p }, j)),
            None => None,
        }
    } else {
        None
    }
}

/// A type specification: each layer of `[ Type ; size ]` pushes `size` onto
/// the array-size list (innermost first); the base case is a type path.
pub open spec fn sp_type(t: Seq<Tok>, i: int) -> Option<(TypePathV, Seq<u128>, int)>
    decreases t.len() - i,
{
    if 0 <= i && i < t.len() && (t[i] matches Tok::Open(Delim::Bracket)) {
        match sp_type(t, i + 1) {
            Some((ty, sizes, j)) => {
                if j + 2 < t.len() && (t[j] matches Tok::Semi) && (t[j + 2] matches Tok::Close(
                    Delim::Bracket,
                )) {
                    match t[j + 1] {
                        Tok::Lit(n) => Some((ty, sizes.push(n), j + 3)),
                        _ => None,
                    }
                } else {
                    None
                }
            },
            None => None,
        }
    } else {
        match sp_type_path(t, i) {
            Some((ty, j)) => Some((ty, seq![], j)),
            None => None,
        }
    }
}

/// Comma-separated integer literals up to and including a closing bracket.
pub open spec fn sp_lit_list(t: Seq<Tok>, i: int) -> Option<(Seq<u128>, int)>
    decreases t.len() - i,
{
    if 0 <= i && i < t.len() {
        match t[i] {
            Tok::Close(Delim::Bracket) => Some((seq![], i + 1)),
            Tok::Lit(n) => {
                if i + 1 < t.len() && (t[i + 1] matches Tok::Close(Delim::Bracket)) {
                    Some((seq![n], i + 2))
                } else if i + 1 < t.len() && (t[i + 1] matches Tok::Comma) {
                    match sp_lit_list(t, i + 2) {
                        Some((rest, j)) => Some((seq![n] + rest, j)),
                        None => None,
                    }
                } else {
                    None
                }
            },
            _ => None,
        }
    } else {
        None
    }
}

/// A per-bus integer: a bracketed literal list, or one literal.
pub open spec fn sp_per_bus_int(t: Seq<Tok>, i: int) -> Option<(PerBusIntV, int)> {
    if 0 <= i && i < t.len() {
        match t[i] {
            Tok::Open(Delim::Bracket) => match sp_lit_list(t, i + 1) {
                Some((v, j)) => Some((PerBusIntV::Array(v), j)),
                None => None,
            },
            Tok::Lit(n) => Some((PerBusIntV::Single(n), i + 1)),
            _ => None,
        }
    } else {
        None
    }
}

/// A successful parse lands after its starting position, inside the tokens.
pub proof fn lemma_sp_path_more_adv(t: Seq<Tok>, i: int)
    ensures
        sp_path_more(t, i) matches Some((v, j)) ==> i <= j && (i <= t.len() ==> j <= t.len()),
    decreases t.len() - i,
{
    if 0 <= i && i + 1 < t.len() && (t[i] matches Tok::PathSep) {
        lemma_sp_path_more_adv(t, i + 2);
    }
}

/// A successful parse lands after its starting position, inside the tokens.
pub proof fn lemma_sp_path_adv(t: Seq<Tok>, i: int)
    ensures
        sp_path(t, i) matches Some((v, j)) ==> i < j <= t.len(),
{
    let leading = 0 <= i && i + 1 < t.len() && (t[i] matches Tok::PathSep);
    if leading {
        lemma_sp_path_more_adv(t, i + 2);
    } else {
        lemma_sp_path_more_adv(t, i + 1);
    }
}

/// A successful parse lands after its starting position, inside the tokens.
pub proof fn lemma_sp_type_path_adv(t: Seq<Tok>, i: int)
    ensures
        sp_type_path(t, i) matches Some((v, j)) ==> i < j <= t.len(),
{
    lemma_sp_path_adv(t, i);
    lemma_sp_path_adv(t, i + 1);
    if 0 <= i && i < t.len() && (t[i] matches Tok::Lt) {
        match sp_path(t, i + 1) {
            Some((base, j)) => {
                lemma_sp_path_adv(t, j + 1);
                lemma_sp_path_adv(t, j + 2);
                match sp_path(t, j + 1) {
                    Some((tr, k)) => {
                        lemma_sp_path_adv(t, k + 2);
                    },
                    None => {},
                }
            },
            None => {},
        }
    }
}

/// A successful parse lands after its starting position, inside the tokens.
pub proof fn lemma_sp_type_adv(t: Seq<Tok>, i: int)
    ensures
        sp_type(t, i) matches Some((ty, sizes, j)) ==> i < j <= t.len(),
    decreases t.len() - i,
{
    if 0 <= i && i < t.len() && (t[i] matches Tok::Open(Delim::Bracket)) {
        lemma_sp_type_adv(t, i + 1);
    } else {
        lemma_sp_type_path_adv(t, i);
    }
}

/// A successful parse lands after its starting position, inside the tokens.
pub proof fn lemma_sp_lit_list_adv(t: Seq<Tok>, i: int)
    ensures
        sp_lit_list(t, i) matches Some((v, j)) ==> i < j <= t.len(),
    decreases t.len() - i,
{
    if 0 <= i && i + 1 < t.len() {
        lemma_sp_lit_list_adv(t, i + 2);
    }
}

/// A successful parse lands after its starting position, inside the tokens.
pub proof fn lemma_sp_per_bus_int_adv(t: Seq<Tok>, i: int)
    ensures
        sp_per_bus_int(t, i) matches Some((v, j)) ==> i < j <= t.len(),
{
    lemma_sp_lit_list_adv(t, i + 1);
}

/// Comma-separated capability paths up to and including a closing brace.
pub open spec fn sp_ops_list(t: Seq<Tok>, i: int) -> Option<(Seq<PathV>, int)>
    decreases t.len() - i,
        via sp_ops_list_dec
{
    if 0 <= i && i < t.len() {
        if t[i] matches Tok::Close(Delim::Brace) {
            Some((seq![], i + 1))
        } else {
            match sp_path(t, i) {
                Some((p, j)) => {
                    if j < t.len() && (t[j] matches Tok::Close(Delim::Brace)) {
                        Some((seq![p], j + 1))
                    } else if j < t.len() && (t[j] matches Tok::Comma) {
                        match sp_ops_list(t, j + 1) {
                            Some((rest, k)) => Some((seq![p] + rest, k)),
                            None => None,
                        }
                    } else {
                        None
                    }
                },
                None => None,
            }
        }
    } else {
        None
    }
}

#[via_fn]
proof fn sp_ops_list_dec(t: Seq<Tok>, i: int) {
    lemma_sp_path_adv(t, i);
}

/// A successful parse lands after its starting position, inside the tokens.
pub proof fn lemma_sp_ops_list_adv(t: Seq<Tok>, i: int)
    ensures
        sp_ops_list(t, i) matches Some((v, j)) ==> i < j <= t.len(),
    decreases t.len() - i,
{
    if 0 <= i && i < t.len() {
        lemma_sp_path_adv(t, i);
        match sp_path(t, i) {
            Some((p, j)) => {
                if j < t.len() {
                    lemma_sp_ops_list_adv(t, j + 1);
                }
            },
            None => {},
        }
    }
}

/// A register descriptor: `name : Type`, optionally followed by a braced
/// capability list.  Without a capability list the element type must be a
/// plain module path: a qualifying prefix is rejected, because a register
/// reference must name a module-like definition.
pub open spec fn sp_register_def(t: Seq<Tok>, i: int) -> Option<(RegisterDefV, int)> {
    if 0 <= i && i < t.len() {
        match t[i] {
            Tok::Ident(name) => {
                if i + 1 < t.len() && (t[i + 1] matches Tok::Colon) {
                    match sp_type(t, i + 2) {
                        Some((ty, sizes, j)) => {
                            if j < t.len() && (t[j] matches Tok::Open(Delim::Brace)) {
                                match sp_ops_list(t, j + 1) {
                                    Some((ops, k)) => Some(
                                        (
                                            RegisterDefV {
                                                name: name@,
                                                element_type: ty,
                                                array_sizes: sizes,
                                                operations: Some(ops),
                                            },
                                            k,
                                        ),
                                    ),
                                    None => None,
                                }
                            } else if ty.qself is Some {
                                None
                            } else {
                                Some(
                                    (
                                        RegisterDefV {
                                            name: name@,
                                            element_type: ty,
                                            array_sizes: sizes,
                                            operations: None,
                                        },
                                        j,
                                    ),
                                )
                            }
                        },
                        None => None,
                    }
                } else {
                    None
                }
            },
            _ => None,
        }
    } else {
        None
    }
}

/// A successful parse lands after its starting position, inside the tokens.
pub proof fn lemma_sp_register_def_adv(t: Seq<Tok>, i: int)
    ensures
        sp_register_def(t, i) matches Some((v, j)) ==> i < j <= t.len(),
{
    lemma_sp_type_adv(t, i + 2);
    match sp_type(t, i + 2) {
        Some((ty, sizes, j)) => {
            lemma_sp_ops_list_adv(t, j + 1);
        },
        None => {},
    }
}

/// The inputs on which a register descriptor fails with the error that a
/// register reference must name a module-like definition: the element type
/// carries a qualifying prefix and no capability list follows it.
pub open spec fn sp_ref_must_be_module(t: Seq<Tok>, i: int) -> bool {
    &&& 0 <= i && i < t.len()
    &&& t[i] is Ident
    &&& i + 1 < t.len() && (t[i + 1] matches Tok::Colon)
    &&& match sp_type(t, i + 2) {
        Some((ty, sizes, j)) => ty.qself is Some && !(j < t.len() && (t[j] matches Tok::Open(
            Delim::Brace,
        ))),
        None => false,
    }
}

/// Contents of a field: `_ : size` is padding, anything else is a register
/// descriptor.
pub open spec fn sp_field_def(t: Seq<Tok>, i: int) -> Option<(FieldDefV, int)> {
    if 0 <= i && i < t.len() && (t[i] matches Tok::Underscore) {
        if i + 1 < t.len() && (t[i + 1] matches Tok::Colon) {
            match sp_per_bus_int(t, i + 2) {
                Some((p, j)) => Some((FieldDefV::Padding(p), j)),
                None => None,
            }
        } else {
            None
        }
    } else {
        match sp_register_def(t, i) {
            Some((r, j)) => Some((FieldDefV::Register(r), j)),
            None => None,
        }
    }
}

/// A successful parse lands after its starting position, inside the tokens.
pub proof fn lemma_sp_field_def_adv(t: Seq<Tok>, i: int)
    ensures
        sp_field_def(t, i) matches Some((v, j)) ==> i < j <= t.len(),
{
    lemma_sp_per_bus_int_adv(t, i + 2);
    lemma_sp_register_def_adv(t, i);
}

/// Zero or more outer attributes; an inner attribute here is an error.
pub open spec fn sp_attrs_outer(t: Seq<Tok>, i: int) -> Option<(Seq<AttrV>, int)>
    decreases t.len() - i,
{
    if 0 <= i && i < t.len() {
        match t[i] {
            Tok::Attr(a) => {
                if a.inner {
                    None
                } else {
                    match sp_attrs_outer(t, i + 1) {
                        Some((rest, j)) => Some((seq![a@] + rest, j)),
                        None => None,
                    }
                }
            },
            _ => Some((seq![], i)),
        }
    } else {
        Some((seq![], i))
    }
}

/// A successful parse lands at or after its starting position.
pub proof fn lemma_sp_attrs_outer_adv(t: Seq<Tok>, i: int)
    ensures
        sp_attrs_outer(t, i) matches Some((v, j)) ==> i <= j && (i <= t.len() ==> j <= t.len()),
    decreases t.len() - i,
{
    if 0 <= i && i < t.len() {
        lemma_sp_attrs_outer_adv(t, i + 1);
    }
}

/// Zero or more inner attributes; stops at anything else.
pub open spec fn sp_attrs_inner(t: Seq<Tok>, i: int) -> (Seq<AttrV>, int)
    decreases t.len() - i,
{
    if 0 <= i && i < t.len() {
        match t[i] {
            Tok::Attr(a) => {
                if a.inner {
                    let (rest, j) = sp_attrs_inner(t, i + 1);
                    (seq![a@] + rest, j)
                } else {
                    (seq![], i)
                }
            },
            _ => (seq![], i),
        }
    } else {
        (seq![], i)
    }
}

/// One block field: attributes, a per-bus offset, `=>`, and the field itself.
pub open spec fn sp_field(t: Seq<Tok>, i: int) -> Option<(FieldV, int)> {
    match sp_attrs_outer(t, i) {
        Some((attrs, j)) => match sp_per_bus_int(t, j) {
            Some((off, k)) => {
                if k < t.len() && (t[k] matches Tok::FatArrow) {
                    match sp_field_def(t, k + 1) {
                        Some((fd, m)) => Some(
                            (FieldV { attributes: attrs, offsets: off, field_def: fd }, m),
                        ),
                        None => None,
                    }
                } else {
                    None
                }
            },
            None => None,
        },
        None => None,
    }
}

/// A successful parse lands after its starting position, inside the tokens.
pub proof fn lemma_sp_field_adv(t: Seq<Tok>, i: int)
    ensures
        sp_field(t, i) matches Some((v, j)) ==> i < j <= t.len(),
{
    lemma_sp_attrs_outer_adv(t, i);
    match sp_attrs_outer(t, i) {
        Some((attrs, j)) => {
            lemma_sp_per_bus_int_adv(t, j);
            match sp_per_bus_int(t, j) {
                Some((off, k)) => {
                    lemma_sp_field_def_adv(t, k + 1);
                },
                None => {},
            }
        },
        None => {},
    }
}

/// Comma-separated fields up to and including a closing brace.
pub open spec fn sp_fields_list(t: Seq<Tok>, i: int) -> Option<(Seq<FieldV>, int)>
    decreases t.len() - i,
        via sp_fields_list_dec
{
    if 0 <= i && i < t.len() {
        if t[i] matches Tok::Close(Delim::Brace) {
            Some((seq![], i + 1))
        } else {
            match sp_field(t, i) {
                Some((f, j)) => {
                    if j < t.len() && (t[j] matches Tok::Close(Delim::Brace)) {
                        Some((seq![f], j + 1))
                    } else if j < t.len() && (t[j] matches Tok::Comma) {
                        match sp_fields_list(t, j + 1) {
                            Some((rest, k)) => Some((seq![f] + rest, k)),
                            None => None,
                        }
                    } else {
                        None
                    }
                },
                None => None,
            }
        }
    } else {
        None
    }
}

#[via_fn]
proof fn sp_fields_list_dec(t: Seq<Tok>, i: int) {
    lemma_sp_field_adv(t, i);
}

/// A successful parse lands after its starting position, inside the tokens.
pub proof fn lemma_sp_fields_list_adv(t: Seq<Tok>, i: int)
    ensures
        sp_fields_list(t, i) matches Some((v, j)) ==> i < j <= t.len(),
    decreases t.len() - i,
{
    if 0 <= i && i < t.len() {
        lemma_sp_field_adv(t, i);
        match sp_field(t, i) {
            Some((f, j)) => {
                if j < t.len() {
                    lemma_sp_fields_list_adv(t, j + 1);
                }
            },
            None => {},
        }
    }
}

/// The inputs on which a definition's value fails because the token after
/// its name is neither a colon nor an opening brace.
pub open spec fn sp_expected_colon_or_brace(t: Seq<Tok>, i: int) -> bool {
    &&& 0 <= i && i < t.len()
    &&& t[i] is Ident
    &&& !(i + 1 < t.len() && (t[i + 1] matches Tok::Colon))
    &&& !(i + 1 < t.len() && (t[i + 1] matches Tok::Open(Delim::Brace)))
}

/// A definition's value: a register descriptor when a colon follows the
/// name, a braced block when a brace follows; anything else is an error.
pub open spec fn sp_value(t: Seq<Tok>, i: int) -> Option<(ValueV, int)> {
    if 0 <= i && i + 1 < t.len() && (t[i + 1] matches Tok::Colon) {
        match sp_register_def(t, i) {
            Some((r, j)) => Some((ValueV::Single(r), j)),
            None => None,
        }
    } else if 0 <= i && i < t.len() {
        match t[i] {
            Tok::Ident(name) => {
                if i + 1 < t.len() && (t[i + 1] matches Tok::Open(Delim::Brace)) {
                    match sp_fields_list(t, i + 2) {
                        Some((fields, j)) => Some((ValueV::Block { name: name@, fields }, j)),
                        None => None,
                    }
                } else {
                    None
                }
            },
            _ => None,
        }
    } else {
        None
    }
}

/// A successful parse lands after its starting position, inside the tokens.
pub proof fn lemma_sp_value_adv(t: Seq<Tok>, i: int)
    ensures
        sp_value(t, i) matches Some((v, j)) ==> i < j <= t.len(),
{
    lemma_sp_register_def_adv(t, i);
    lemma_sp_fields_list_adv(t, i + 2);
}

/// One definition: outer attributes, a visibility, and a value.  Buses are
/// filled in by the whole-input parse.
pub open spec fn sp_definition(t: Seq<Tok>, i: int) -> Option<(DefinitionV, int)> {
    match sp_attrs_outer(t, i) {
        Some((attrs, j)) => {
            let vis = if 0 <= j && j < t.len() && (t[j] matches Tok::KwPub) {
                Vis::Public
            } else {
                Vis::Inherited
            };
            let k = if vis is Public {
                j + 1
            } else {
                j
            };
            match sp_value(t, k) {
                Some((v, m)) => Some(
                    (
                        DefinitionV {
                            attributes: attrs,
                            buses: seq![],
                            visibility: vis,
                            value: v,
                        },
                        m,
                    ),
                ),
                None => None,
            }
        },
        None => None,
    }
}

/// A successful parse lands after its starting position, inside the tokens.
pub proof fn lemma_sp_definition_adv(t: Seq<Tok>, i: int)
    ensures
        sp_definition(t, i) matches Some((v, j)) ==> i < j <= t.len(),
{
    lemma_sp_attrs_outer_adv(t, i);
    match sp_attrs_outer(t, i) {
        Some((attrs, j)) => {
            lemma_sp_value_adv(t, j);
            lemma_sp_value_adv(t, j + 1);
        },
        None => {},
    }
}

/// Comma-separated definitions up to the end of the input.
pub open spec fn sp_definitions(t: Seq<Tok>, i: int) -> Option<(Seq<DefinitionV>, int)>
    decreases t.len() - i,
        via sp_definitions_dec
{
    if 0 <= i && i < t.len() {
        match sp_definition(t, i) {
            Some((d, j)) => {
                if j == t.len() {
                    Some((seq![d], j))
                } else if j < t.len() && (t[j] matches Tok::Comma) {
                    match sp_definitions(t, j + 1) {
                        Some((rest, k)) => Some((seq![d] + rest, k)),
                        None => None,
                    }
                } else {
                    None
                }
            },
            None => None,
        }
    } else if i == t.len() {
        Some((seq![], i))
    } else {
        None
    }
}

#[via_fn]
proof fn sp_definitions_dec(t: Seq<Tok>, i: int) {
    lemma_sp_definition_adv(t, i);
}

/// True of the bus-selection attribute, which the parser strips.
pub open spec fn spec_is_buses_attr(a: AttrV) -> bool {
    &&& !a.path.leading_colon
    &&& a.path.segments.len() == 1
    &&& a.path.segments[0] == "buses"@
}

/// The type path of the single default bus every definition is assigned.
pub open spec fn spec_mmio32_type_path() -> TypePathV {
    TypePathV {
        qself: None,
        path: PathV { leading_colon: false, segments: seq!["Mmio32"@] },
    }
}

/// Keeps, in order, the attributes that are not the bus-selection attribute,
/// each converted to an outer attribute.
pub open spec fn spec_strip_attrs(s: Seq<AttrV>) -> Seq<AttrV>
    decreases s.len(),
{
    if s.len() == 0 {
        seq![]
    } else {
        let rest = spec_strip_attrs(s.skip(1));
        if spec_is_buses_attr(s[0]) {
            rest
        } else {
            seq![AttrV { inner: false, path: s[0].path }] + rest
        }
    }
}

/// Completes one parsed definition: the invocation's inner attributes are
/// prepended to the definition's own (all as outer attributes), the
/// bus-selection attribute is stripped, and the single default bus is
/// assigned.
pub open spec fn spec_finish_definition(inner: Seq<AttrV>, d: DefinitionV) -> DefinitionV {
    DefinitionV {
        attributes: spec_strip_attrs(inner + d.attributes),
        buses: seq![spec_mmio32_type_path()],
        visibility: d.visibility,
        value: d.value,
    }
}

/// The full input: the library path, the invocation's inner attributes, and
/// the definitions, which must reach the end of the tokens.
pub open spec fn sp_input(t: Seq<Tok>) -> Option<InputV> {
    match sp_path(t, 0) {
        Some((tr, i)) => {
            let (inner, j) = sp_attrs_inner(t, i);
            match sp_definitions(t, j) {
                Some((defs, k)) => Some(
                    InputV {
                        tock_registers: tr,
                        definitions: defs.map_values(
                            |d: DefinitionV| spec_finish_definition(inner, d),
                        ),
                    },
                ),
                None => None,
            }
        },
        None => None,
    }
}

} // verus!

verus! {

/// The kind of a grammar error.
#[derive(Debug, PartialEq, Eq, Clone, Copy, Structural)]
pub enum ErrorKind {
    /// A token was not the one the grammar asks for at its position.
    UnexpectedToken,
    /// After a definition's name, neither a colon nor a brace follows.
    ExpectedColonOrBrace,
    /// A register reference names an associated item instead of a module.
    RefMustBeModule,
    /// A register field's per-bus offset list is shorter than the
    /// definition's bus list.
    OffsetCountMismatch,
}

/// A grammar error: the position of the offending token and what went wrong.
/// Any grammar violation aborts the whole invocation with one such error.
#[derive(Debug, PartialEq, Eq, Clone, Copy, Structural)]
pub struct ParseError {
    pub pos: usize,
    pub kind: ErrorKind,
}

impl ParseError {
    /// A human-readable rendering of the error.
    pub fn message(&self) -> (r: String)
        ensures
            self.kind is RefMustBeModule ==> r@ == "register reference must be to a module"@,
    {
        match self.kind {
            ErrorKind::UnexpectedToken => "unexpected token".to_owned(),
            ErrorKind::ExpectedColonOrBrace => "expected one of: `:`, `{`".to_owned(),
            ErrorKind::RefMustBeModule => "register reference must be to a module".to_owned(),
            ErrorKind::OffsetCountMismatch => "per-bus offset list is shorter than the bus list".to_owned(),
        }
    }
}

/// An owned copy of a string list, with the same view.
pub(crate) fn clone_strings(v: &Vec<String>) -> (r: Vec<String>)
    ensures
        r.deep_view() == v.deep_view(),
{
    let mut r: Vec<String> = Vec::new();
    let mut k: usize = 0;
    while k < v.len()
        invariant
            k <= v@.len(),
            r.deep_view() == v.deep_view().take(k as int),
        decreases v@.len() - k,
    {
        let ghost pre = r.deep_view();
        let ghost prev = r@;
        r.push(v[k].clone());
        proof {
            assert(pre.len() == k as int);
            assert(prev.len() == k as int);
            assert(r@.len() == k as int + 1);
            assert(r@ == prev.push(r@[k as int]));
            assert forall|i: int| 0 <= i < k as int + 1 implies r.deep_view()[i]
                == v.deep_view().take(k as int + 1)[i] by {
                if i < k as int {
                    assert(r@[i] == prev[i]);
                    assert(r.deep_view()[i] == pre[i]);
                }
            }
            assert(r.deep_view() =~= v.deep_view().take(k as int + 1));
        }
        k += 1;
    }
    proof {
        assert(r.deep_view() =~= v.deep_view());
    }
    r
}

/// An owned copy of a path, with the same view.
pub(crate) fn clone_path(p: &Path) -> (r: Path)
    ensures
        r@ == p@,
{
    Path { leading_colon: p.leading_colon, segments: clone_strings(&p.segments) }
}

/// An owned copy of a path list, with the same view.
pub(crate) fn clone_paths(v: &Vec<Path>) -> (r: Vec<Path>)
    ensures
        r.deep_view() == v.deep_view(),
{
    let mut r: Vec<Path> = Vec::new();
    let mut k: usize = 0;
    while k < v.len()
        invariant
            k <= v@.len(),
            r.deep_view() == v.deep_view().take(k as int),
        decreases v@.len() - k,
    {
        let ghost pre = r.deep_view();
        let ghost prev = r@;
        r.push(clone_path(&v[k]));
        proof {
            assert(pre.len() == k as int);
            assert(prev.len() == k as int);
            assert(r@.len() == k as int + 1);
            assert(r@ == prev.push(r@[k as int]));
            assert forall|i: int| 0 <= i < k as int + 1 implies r.deep_view()[i]
                == v.deep_view().take(k as int + 1)[i] by {
                if i < k as int {
                    assert(r@[i] == prev[i]);
                    assert(r.deep_view()[i] == pre[i]);
                }
            }
            assert(r.deep_view() =~= v.deep_view().take(k as int + 1));
        }
        k += 1;
    }
    proof {
        assert(r.deep_view() =~= v.deep_view());
    }
    r
}

/// An owned copy of a type path, with the same view.
pub(crate) fn clone_type_path(p: &TypePath) -> (r: TypePath)
    ensures
        r@ == p@,
{
    let qself = match &p.qself {
        Some(q) => Some(
            QSelf {
                base: clone_path(&q.base),
                as_trait: match &q.as_trait {
                    Some(tr) => Some(clone_path(tr)),
                    None => None,
                },
            },
        ),
        None => None,
    };
    TypePath { qself, path: clone_path(&p.path) }
}

/// An owned copy of an attribute, with the same view.
pub(crate) fn clone_attr(a: &Attr) -> (r: Attr)
    ensures
        r@ == a@,
{
    Attr { inner: a.inner, path: clone_path(&a.path) }
}

/// An owned copy of an attribute list, with the same view.
pub(crate) fn clone_attrs(v: &Vec<Attr>) -> (r: Vec<Attr>)
    ensures
        r.deep_view() == v.deep_view(),
{
    let mut r: Vec<Attr> = Vec::new();
    let mut k: usize = 0;
    while k < v.len()
        invariant
            k <= v@.len(),
            r.deep_view() == v.deep_view().take(k as int),
        decreases v@.len() - k,
    {
        let ghost pre = r.deep_view();
        let ghost prev = r@;
        r.push(clone_attr(&v[k]));
        proof {
            assert(pre.len() == k as int);
            assert(prev.len() == k as int);
            assert(r@.len() == k as int + 1);
            assert(r@ == prev.push(r@[k as int]));
            assert forall|i: int| 0 <= i < k as int + 1 implies r.deep_view()[i]
                == v.deep_view().take(k as int + 1)[i] by {
                if i < k as int {
                    assert(r@[i] == prev[i]);
                    assert(r.deep_view()[i] == pre[i]);
                }
            }
            assert(r.deep_view() =~= v.deep_view().take(k as int + 1));
        }
        k += 1;
    }
    proof {
        assert(r.deep_view() =~= v.deep_view());
    }
    r
}

/// Zero or more `:: segment` pairs; the executable counterpart of
/// [`sp_path_more`].
fn parse_path_more(t: &Vec<Tok>, pos: usize) -> (r: Result<(Vec<String>, usize), ParseError>)
    ensures
        match sp_path_more(t@, pos as int) {
            Some((v, j)) => r matches Ok(o) && o.0.deep_view() == v && o.1 as int == j,
            None => r is Err,
        },
    decreases t@.len() - pos,
{
    if pos < t.len() && pos + 1 < t.len() && (match &t[pos] {
        Tok::PathSep => true,
        _ => false,
    }) {
        match &t[pos + 1] {
            Tok::Ident(s) => {
                let first = s.clone();
                match parse_path_more(t, pos + 2) {
                    Ok((mut rest, j)) => {
                        rest.insert(0, first);
                        proof {
                            let spec_rest = sp_path_more(t@, pos + 2 as int)->Some_0.0;
                            assert(rest.deep_view() =~= seq![s@] + spec_rest);
                        }
                        Ok((rest, j))
                    },
                    Err(e) => Err(e),
                }
            },
            _ => Err(ParseError { pos: pos + 1, kind: ErrorKind::UnexpectedToken }),
        }
    } else if pos < t.len() && (match &t[pos] {
        Tok::PathSep => true,
        _ => false,
    }) {
        Err(ParseError { pos, kind: ErrorKind::UnexpectedToken })
    } else {
        Ok((Vec::new(), pos))
    }
}

/// A plain path; the executable counterpart of [`sp_path`].
pub fn parse_path(t: &Vec<Tok>, pos: usize) -> (r: Result<(Path, usize), ParseError>)
    ensures
        match sp_path(t@, pos as int) {
            Some((v, j)) => r matches Ok(o) && o.0@ == v && o.1 as int == j,
            None => r is Err,
        },
{
    let leading = pos < t.len() && pos + 1 < t.len() && (match &t[pos] {
        Tok::PathSep => true,
        _ => false,
    });
    let j = if leading {
        pos + 1
    } else {
        pos
    };
    if j < t.len() {
        match &t[j] {
            Tok::Ident(s) => {
                let first = s.clone();
                match parse_path_more(t, j + 1) {
                    Ok((mut rest, k)) => {
                        rest.insert(0, first);
                        proof {
                            let spec_rest = sp_path_more(t@, j + 1 as int)->Some_0.0;
                            assert(rest.deep_view() =~= seq![s@] + spec_rest);
                        }
                        Ok((Path { leading_colon: leading, segments: rest }, k))
                    },
                    Err(e) => Err(e),
                }
            },
            _ => Err(ParseError { pos: j, kind: ErrorKind::UnexpectedToken }),
        }
    } else {
        Err(ParseError { pos: j, kind: ErrorKind::UnexpectedToken })
    }
}

/// The `> :: path` tail of a qualified path; the executable counterpart of
/// [`sp_qualified_tail`].
fn parse_qualified_tail(t: &Vec<Tok>, pos: usize, q: QSelf) -> (r: Result<
    (TypePath, usize),
    ParseError,
>)
    ensures
        match sp_qualified_tail(t@, pos as int, q@) {
            Some((v, j)) => r matches Ok(o) && o.0@ == v && o.1 as int == j,
            None => r is Err,
        },
{
    if pos < t.len() && pos + 1 < t.len() && (match &t[pos] {
        Tok::Gt => true,
        _ => false,
    }) && (match &t[pos + 1] {
        Tok::PathSep => true,
        _ => false,
    }) {
        match parse_path(t, pos + 2) {
            Ok((p, j)) => Ok((TypePath { qself: Some(q), path: p }, j)),
            Err(e) => Err(e),
        }
    } else {
        Err(ParseError { pos, kind: ErrorKind::UnexpectedToken })
    }
}

/// A type path; the executable counterpart of [`sp_type_path`].
pub fn parse_type_path(t: &Vec<Tok>, pos: usize) -> (r: Result<(TypePath, usize), ParseError>)
    ensures
        match sp_type_path(t@, pos as int) {
            Some((v, j)) => r matches Ok(o) && o.0@ == v && o.1 as int == j,
            None => r is Err,
        },
{
    if pos < t.len() && (match &t[pos] {
        Tok::Lt => true,
        _ => false,
    }) {
        match parse_path(t, pos + 1) {
            Ok((base, j)) => {
                if j < t.len() && (match &t[j] {
                    Tok::KwAs => true,
                    _ => false,
                }) {
                    match parse_path(t, j + 1) {
                        Ok((tr, k)) => parse_qualified_tail(
                            t,
                            k,
                            QSelf { base, as_trait: Some(tr) },
                        ),
                        Err(e) => Err(e),
                    }
                } else {
                    parse_qualified_tail(t, j, QSelf { base, as_trait: None })
                }
            },
            Err(e) => Err(e),
        }
    } else {
        match parse_path(t, pos) {
            Ok((p, j)) => Ok((TypePath { qself: None, path: p }, j)),
            Err(e) => Err(e),
        }
    }
}

/// A type specification with its array sizes (innermost first); the
/// executable counterpart of [`sp_type`].
pub fn parse_type(t: &Vec<Tok>, pos: usize) -> (r: Result<
    (TypePath, Vec<u128>, usize),
    ParseError,
>)
    ensures
        match sp_type(t@, pos as int) {
            Some((ty, sizes, j)) => r matches Ok(o) && o.0@ == ty && o.1.deep_view() == sizes
                && o.2 as int == j,
            None => r is Err,
        },
    decreases t@.len() - pos,
{
    if pos < t.len() && (match &t[pos] {
        Tok::Open(Delim::Bracket) => true,
        _ => false,
    }) {
        match parse_type(t, pos + 1) {
            Ok((ty, mut sizes, j)) => {
                if j < t.len() && 2 < t.len() - j && (match &t[j] {
                    Tok::Semi => true,
                    _ => false,
                }) && (match &t[j + 2] {
                    Tok::Close(Delim::Bracket) => true,
                    _ => false,
                }) {
                    match &t[j + 1] {
                        Tok::Lit(n) => {
                            let size = *n;
                            sizes.push(size);
                            proof {
                                let spec_sizes = sp_type(t@, pos + 1 as int)->Some_0.1;
                                assert(sizes.deep_view() =~= spec_sizes.push(size));
                            }
                            Ok((ty, sizes, j + 3))
                        },
                        _ => Err(ParseError { pos: j + 1, kind: ErrorKind::UnexpectedToken }),
                    }
                } else {
                    Err(ParseError { pos: j, kind: ErrorKind::UnexpectedToken })
                }
            },
            Err(e) => Err(e),
        }
    } else {
        match parse_type_path(t, pos) {
            Ok((ty, j)) => {
                let sizes: Vec<u128> = Vec::new();
                proof {
                    assert(sizes.deep_view() =~= Seq::<u128>::empty());
                }
                Ok((ty, sizes, j))
            },
            Err(e) => Err(e),
        }
    }
}

} // verus!
verus! {

/// Moving an element to the front of a list prepends its view to the list's
/// view.
proof fn lemma_deep_view_insert_front<T: DeepView>(pre: Vec<T>, post: Vec<T>, x: T)
    requires
        post@ == pre@.insert(0, x),
    ensures
        post.deep_view() == seq![x.deep_view()] + pre.deep_view(),
{
    assert(pre@.subrange(0, 0).push(x).len() == 1);
    assert(post@.len() == pre@.len() + 1);
    assert forall|i: int| 0 <= i < post.deep_view().len() implies post.deep_view()[i] == (seq![
        x.deep_view(),
    ] + pre.deep_view())[i] by {
        if i == 0 {
            assert(post@[0] == x);
        } else {
            assert(post@[i] == pre@[i - 1]);
        }
    }
    assert(post.deep_view() =~= seq![x.deep_view()] + pre.deep_view());
}

/// Comma-separated literals up to a closing bracket; the executable
/// counterpart of [`sp_lit_list`].
fn parse_lit_list(t: &Vec<Tok>, pos: usize) -> (r: Result<(Vec<u128>, usize), ParseError>)
    ensures
        match sp_lit_list(t@, pos as int) {
            Some((v, j)) => r matches Ok(o) && o.0.deep_view() == v && o.1 as int == j,
            None => r is Err,
        },
    decreases t@.len() - pos,
{
    if pos < t.len() {
        match &t[pos] {
            Tok::Close(Delim::Bracket) => {
                let v: Vec<u128> = Vec::new();
                proof {
                    assert(v.deep_view() =~= Seq::<u128>::empty());
                }
                Ok((v, pos + 1))
            },
            Tok::Lit(n) => {
                let n = *n;
                if pos + 1 < t.len() && (match &t[pos + 1] {
                    Tok::Close(Delim::Bracket) => true,
                    _ => false,
                }) {
                    let mut v: Vec<u128> = Vec::new();
                    v.push(n);
                    proof {
                        assert(v.deep_view() =~= seq![n]);
                    }
                    Ok((v, pos + 2))
                } else if pos + 1 < t.len() && (match &t[pos + 1] {
                    Tok::Comma => true,
                    _ => false,
                }) {
                    match parse_lit_list(t, pos + 2) {
                        Ok((mut rest, j)) => {
                            let ghost pre = rest;
                            rest.insert(0, n);
                            proof {
                                lemma_deep_view_insert_front(pre, rest, n);
                            }
                            Ok((rest, j))
                        },
                        Err(e) => Err(e),
                    }
                } else {
                    Err(ParseError { pos, kind: ErrorKind::UnexpectedToken })
                }
            },
            _ => Err(ParseError { pos, kind: ErrorKind::UnexpectedToken }),
        }
    } else {
        Err(ParseError { pos, kind: ErrorKind::UnexpectedToken })
    }
}

impl PerBusInt {
    /// A per-bus integer; the executable counterpart of [`sp_per_bus_int`].
    pub fn parse(t: &Vec<Tok>, pos: usize) -> (r: Result<(PerBusInt, usize), ParseError>)
        ensures
            match sp_per_bus_int(t@, pos as int) {
                Some((v, j)) => r matches Ok(o) && o.0@ == v && o.1 as int == j,
                None => r is Err,
            },
    {
        if pos < t.len() {
            match &t[pos] {
                Tok::Open(Delim::Bracket) => match parse_lit_list(t, pos + 1) {
                    Ok((v, j)) => Ok((PerBusInt::Array(v), j)),
                    Err(e) => Err(e),
                },
                Tok::Lit(n) => Ok((PerBusInt::Single(*n), pos + 1)),
                _ => Err(ParseError { pos, kind: ErrorKind::UnexpectedToken }),
            }
        } else {
            Err(ParseError { pos, kind: ErrorKind::UnexpectedToken })
        }
    }
}

/// Comma-separated capability paths up to a closing brace; the executable
/// counterpart of [`sp_ops_list`].
fn parse_ops_list(t: &Vec<Tok>, pos: usize) -> (r: Result<(Vec<Path>, usize), ParseError>)
    ensures
        match sp_ops_list(t@, pos as int) {
            Some((v, j)) => r matches Ok(o) && o.0.deep_view() == v && o.1 as int == j,
            None => r is Err,
        },
    decreases t@.len() - pos,
{
    if pos < t.len() {
        if (match &t[pos] {
            Tok::Close(Delim::Brace) => true,
            _ => false,
        }) {
            let v: Vec<Path> = Vec::new();
            proof {
                assert(v.deep_view() =~= Seq::<PathV>::empty());
            }
            Ok((v, pos + 1))
        } else {
            match parse_path(t, pos) {
                Ok((p, j)) => {
                    proof {
                        lemma_sp_path_adv(t@, pos as int);
                    }
                    if j < t.len() && (match &t[j] {
                        Tok::Close(Delim::Brace) => true,
                        _ => false,
                    }) {
                        let mut v: Vec<Path> = Vec::new();
                        v.push(p);
                        proof {
                            assert(v.deep_view() =~= seq![v@[0]@]);
                        }
                        Ok((v, j + 1))
                    } else if j < t.len() && (match &t[j] {
                        Tok::Comma => true,
                        _ => false,
                    }) {
                        match parse_ops_list(t, j + 1) {
                            Ok((mut rest, k)) => {
                                let ghost pre = rest;
                                let ghost pv = p@;
                                rest.insert(0, p);
                                proof {
                                    lemma_deep_view_insert_front(pre, rest, rest@[0]);
                                    assert(rest@[0]@ == pv);
                                }
                                Ok((rest, k))
                            },
                            Err(e) => Err(e),
                        }
                    } else {
                        Err(ParseError { pos: j, kind: ErrorKind::UnexpectedToken })
                    }
                },
                Err(e) => Err(e),
            }
        }
    } else {
        Err(ParseError { pos, kind: ErrorKind::UnexpectedToken })
    }
}

impl RegisterDef {
    /// A register descriptor; the executable counterpart of
    /// [`sp_register_def`].  A qualified element type without a capability
    /// list is rejected: a register reference must name a module-like
    /// definition.
    pub fn parse(t: &Vec<Tok>, pos: usize) -> (r: Result<(RegisterDef, usize), ParseError>)
        ensures
            match sp_register_def(t@, pos as int) {
                Some((v, j)) => r matches Ok(o) && o.0@ == v && o.1 as int == j,
                None => r is Err,
            },
            sp_ref_must_be_module(t@, pos as int) ==> (r matches Err(e) && e.kind
                == ErrorKind::RefMustBeModule),
    {
        if pos < t.len() {
            match &t[pos] {
                Tok::Ident(s) => {
                    let name = s.clone();
                    if pos + 1 < t.len() && (match &t[pos + 1] {
                        Tok::Colon => true,
                        _ => false,
                    }) {
                        match parse_type(t, pos + 2) {
                            Ok((ty, sizes, j)) => {
                                proof {
                                    lemma_sp_type_adv(t@, pos + 2 as int);
                                }
                                if j < t.len() && (match &t[j] {
                                    Tok::Open(Delim::Brace) => true,
                                    _ => false,
                                }) {
                                    match parse_ops_list(t, j + 1) {
                                        Ok((ops, k)) => Ok(
                                            (
                                                RegisterDef {
                                                    name,
                                                    element_type: ty,
                                                    array_sizes: sizes,
                                                    operations: Some(ops),
                                                },
                                                k,
                                            ),
                                        ),
                                        Err(e) => Err(e),
                                    }
                                } else if (match &ty.qself {
                                    Some(_) => true,
                                    None => false,
                                }) {
                                    Err(ParseError { pos: j, kind: ErrorKind::RefMustBeModule })
                                } else {
                                    Ok(
                                        (
                                            RegisterDef {
                                                name,
                                                element_type: ty,
                                                array_sizes: sizes,
                                                operations: None,
                                            },
                                            j,
                                        ),
                                    )
                                }
                            },
                            Err(e) => Err(e),
                        }
                    } else {
                        Err(ParseError { pos, kind: ErrorKind::UnexpectedToken })
                    }
                },
                _ => Err(ParseError { pos, kind: ErrorKind::UnexpectedToken }),
            }
        } else {
            Err(ParseError { pos, kind: ErrorKind::UnexpectedToken })
        }
    }
}

impl FieldDef {
    /// Contents of a field; the executable counterpart of [`sp_field_def`].
    pub fn parse(t: &Vec<Tok>, pos: usize) -> (r: Result<(FieldDef, usize), ParseError>)
        ensures
            match sp_field_def(t@, pos as int) {
                Some((v, j)) => r matches Ok(o) && o.0@ == v && o.1 as int == j,
                None => r is Err,
            },
    {
        if pos < t.len() && (match &t[pos] {
            Tok::Underscore => true,
            _ => false,
        }) {
            if pos + 1 < t.len() && (match &t[pos + 1] {
                Tok::Colon => true,
                _ => false,
            }) {
                match PerBusInt::parse(t, pos + 2) {
                    Ok((p, j)) => Ok((FieldDef::Padding(p), j)),
                    Err(e) => Err(e),
                }
            } else {
                Err(ParseError { pos, kind: ErrorKind::UnexpectedToken })
            }
        } else {
            match RegisterDef::parse(t, pos) {
                Ok((rd, j)) => Ok((FieldDef::Register(rd), j)),
                Err(e) => Err(e),
            }
        }
    }
}

/// Zero or more outer attributes; the executable counterpart of
/// [`sp_attrs_outer`].
fn parse_outer_attrs(t: &Vec<Tok>, pos: usize) -> (r: Result<(Vec<Attr>, usize), ParseError>)
    ensures
        match sp_attrs_outer(t@, pos as int) {
            Some((v, j)) => r matches Ok(o) && o.0.deep_view() == v && o.1 as int == j,
            None => r is Err,
        },
    decreases t@.len() - pos,
{
    if pos < t.len() {
        match &t[pos] {
            Tok::Attr(a) => {
                if a.inner {
                    Err(ParseError { pos, kind: ErrorKind::UnexpectedToken })
                } else {
                    let first = clone_attr(a);
                    match parse_outer_attrs(t, pos + 1) {
                        Ok((mut rest, j)) => {
                            let ghost pre = rest;
                            let ghost fv = first@;
                            rest.insert(0, first);
                            proof {
                                lemma_deep_view_insert_front(pre, rest, rest@[0]);
                                assert(rest@[0]@ == fv);
                            }
                            Ok((rest, j))
                        },
                        Err(e) => Err(e),
                    }
                }
            },
            _ => {
                let v: Vec<Attr> = Vec::new();
                proof {
                    assert(v.deep_view() =~= Seq::<AttrV>::empty());
                }
                Ok((v, pos))
            },
        }
    } else {
        let v: Vec<Attr> = Vec::new();
        proof {
            assert(v.deep_view() =~= Seq::<AttrV>::empty());
        }
        Ok((v, pos))
    }
}

/// Zero or more inner attributes; the executable counterpart of
/// [`sp_attrs_inner`].
fn parse_inner_attrs(t: &Vec<Tok>, pos: usize) -> (r: (Vec<Attr>, usize))
    ensures
        r.0.deep_view() == sp_attrs_inner(t@, pos as int).0,
        r.1 as int == sp_attrs_inner(t@, pos as int).1,
    decreases t@.len() - pos,
{
    if pos < t.len() {
        match &t[pos] {
            Tok::Attr(a) => {
                if a.inner {
                    let first = clone_attr(a);
                    let (mut rest, j) = parse_inner_attrs(t, pos + 1);
                    let ghost pre = rest;
                    let ghost fv = first@;
                    rest.insert(0, first);
                    proof {
                        lemma_deep_view_insert_front(pre, rest, rest@[0]);
                        assert(rest@[0]@ == fv);
                    }
                    (rest, j)
                } else {
                    let v: Vec<Attr> = Vec::new();
                    proof {
                        assert(v.deep_view() =~= Seq::<AttrV>::empty());
                    }
                    (v, pos)
                }
            },
            _ => {
                let v: Vec<Attr> = Vec::new();
                proof {
                    assert(v.deep_view() =~= Seq::<AttrV>::empty());
                }
                (v, pos)
            },
        }
    } else {
        let v: Vec<Attr> = Vec::new();
        proof {
            assert(v.deep_view() =~= Seq::<AttrV>::empty());
        }
        (v, pos)
    }
}

impl Field {
    /// One block field; the executable counterpart of [`sp_field`].
    pub fn parse(t: &Vec<Tok>, pos: usize) -> (r: Result<(Field, usize), ParseError>)
        ensures
            match sp_field(t@, pos as int) {
                Some((v, j)) => r matches Ok(o) && o.0@ == v && o.1 as int == j,
                None => r is Err,
            },
    {
        match parse_outer_attrs(t, pos) {
            Ok((attributes, j)) => match PerBusInt::parse(t, j) {
                Ok((offsets, k)) => {
                    if k < t.len() && (match &t[k] {
                        Tok::FatArrow => true,
                        _ => false,
                    }) {
                        match FieldDef::parse(t, k + 1) {
                            Ok((field_def, m)) => Ok(
                                (Field { attributes, offsets, field_def }, m),
                            ),
                            Err(e) => Err(e),
                        }
                    } else {
                        Err(ParseError { pos: k, kind: ErrorKind::UnexpectedToken })
                    }
                },
                Err(e) => Err(e),
            },
            Err(e) => Err(e),
        }
    }
}

/// Comma-separated fields up to a closing brace; the executable counterpart
/// of [`sp_fields_list`].
fn parse_fields_list(t: &Vec<Tok>, pos: usize) -> (r: Result<(Vec<Field>, usize), ParseError>)
    ensures
        match sp_fields_list(t@, pos as int) {
            Some((v, j)) => r matches Ok(o) && o.0.deep_view() == v && o.1 as int == j,
            None => r is Err,
        },
    decreases t@.len() - pos,
{
    if pos < t.len() {
        if (match &t[pos] {
            Tok::Close(Delim::Brace) => true,
            _ => false,
        }) {
            let v: Vec<Field> = Vec::new();
            proof {
                assert(v.deep_view() =~= Seq::<FieldV>::empty());
            }
            Ok((v, pos + 1))
        } else {
            match Field::parse(t, pos) {
                Ok((f, j)) => {
                    proof {
                        lemma_sp_field_adv(t@, pos as int);
                    }
                    if j < t.len() && (match &t[j] {
                        Tok::Close(Delim::Brace) => true,
                        _ => false,
                    }) {
                        let mut v: Vec<Field> = Vec::new();
                        v.push(f);
                        proof {
                            assert(v.deep_view() =~= seq![v@[0]@]);
                        }
                        Ok((v, j + 1))
                    } else if j < t.len() && (match &t[j] {
                        Tok::Comma => true,
                        _ => false,
                    }) {
                        match parse_fields_list(t, j + 1) {
                            Ok((mut rest, k)) => {
                                let ghost pre = rest;
                                let ghost fv = f@;
                                rest.insert(0, f);
                                proof {
                                    lemma_deep_view_insert_front(pre, rest, rest@[0]);
                                    assert(rest@[0]@ == fv);
                                }
                                Ok((rest, k))
                            },
                            Err(e) => Err(e),
                        }
                    } else {
                        Err(ParseError { pos: j, kind: ErrorKind::UnexpectedToken })
                    }
                },
                Err(e) => Err(e),
            }
        }
    } else {
        Err(ParseError { pos, kind: ErrorKind::UnexpectedToken })
    }
}

impl Value {
    /// A definition's value; the executable counterpart of [`sp_value`].  A
    /// colon after the name makes it a standalone register, a brace a block;
    /// anything else is an error.
    pub fn parse(t: &Vec<Tok>, pos: usize) -> (r: Result<(Value, usize), ParseError>)
        ensures
            match sp_value(t@, pos as int) {
                Some((v, j)) => r matches Ok(o) && o.0@ == v && o.1 as int == j,
                None => r is Err,
            },
            sp_expected_colon_or_brace(t@, pos as int) ==> (r matches Err(e) && e.kind
                == ErrorKind::ExpectedColonOrBrace),
    {
        if pos < t.len() && pos + 1 < t.len() && (match &t[pos + 1] {
            Tok::Colon => true,
            _ => false,
        }) {
            match RegisterDef::parse(t, pos) {
                Ok((rd, j)) => Ok((Value::Single(rd), j)),
                Err(e) => Err(e),
            }
        } else if pos < t.len() {
            match &t[pos] {
                Tok::Ident(s) => {
                    let name = s.clone();
                    if pos + 1 < t.len() && (match &t[pos + 1] {
                        Tok::Open(Delim::Brace) => true,
                        _ => false,
                    }) {
                        match parse_fields_list(t, pos + 2) {
                            Ok((fields, j)) => Ok((Value::Block { name, fields }, j)),
                            Err(e) => Err(e),
                        }
                    } else {
                        Err(ParseError { pos, kind: ErrorKind::ExpectedColonOrBrace })
                    }
                },
                _ => Err(ParseError { pos, kind: ErrorKind::UnexpectedToken }),
            }
        } else {
            Err(ParseError { pos, kind: ErrorKind::UnexpectedToken })
        }
    }
}

impl Definition {
    /// One definition; the executable counterpart of [`sp_definition`].
    pub fn parse(t: &Vec<Tok>, pos: usize) -> (r: Result<(Definition, usize), ParseError>)
        ensures
            match sp_definition(t@, pos as int) {
                Some((v, j)) => r matches Ok(o) && o.0@ == v && o.1 as int == j,
                None => r is Err,
            },
    {
        match parse_outer_attrs(t, pos) {
            Ok((attributes, j)) => {
                proof {
                    lemma_sp_attrs_outer_adv(t@, pos as int);
                }
                let is_pub = j < t.len() && (match &t[j] {
                    Tok::KwPub => true,
                    _ => false,
                });
                let visibility = if is_pub {
                    Vis::Public
                } else {
                    Vis::Inherited
                };
                let k = if is_pub {
                    j + 1
                } else {
                    j
                };
                match Value::parse(t, k) {
                    Ok((value, m)) => {
                        let buses: Vec<TypePath> = Vec::new();
                        proof {
                            assert(buses.deep_view() =~= Seq::<TypePathV>::empty());
                        }
                        Ok((Definition { attributes, buses, visibility, value }, m))
                    },
                    Err(e) => Err(e),
                }
            },
            Err(e) => Err(e),
        }
    }
}

/// Comma-separated definitions up to the end of the input; the executable
/// counterpart of [`sp_definitions`].
fn parse_definitions(t: &Vec<Tok>, pos: usize) -> (r: Result<
    (Vec<Definition>, usize),
    ParseError,
>)
    ensures
        match sp_definitions(t@, pos as int) {
            Some((v, j)) => r matches Ok(o) && o.0.deep_view() == v && o.1 as int == j,
            None => r is Err,
        },
    decreases t@.len() - pos,
{
    if pos < t.len() {
        match Definition::parse(t, pos) {
            Ok((d, j)) => {
                proof {
                    lemma_sp_definition_adv(t@, pos as int);
                }
                if j == t.len() {
                    let mut v: Vec<Definition> = Vec::new();
                    v.push(d);
                    proof {
                        assert(v.deep_view() =~= seq![v@[0]@]);
                    }
                    Ok((v, j))
                } else if j < t.len() && (match &t[j] {
                    Tok::Comma => true,
                    _ => false,
                }) {
                    match parse_definitions(t, j + 1) {
                        Ok((mut rest, k)) => {
                            let ghost pre = rest;
                            let ghost dvw = d@;
                            rest.insert(0, d);
                            proof {
                                lemma_deep_view_insert_front(pre, rest, rest@[0]);
                                assert(rest@[0]@ == dvw);
                            }
                            Ok((rest, k))
                        },
                        Err(e) => Err(e),
                    }
                } else {
                    Err(ParseError { pos: j, kind: ErrorKind::UnexpectedToken })
                }
            },
            Err(e) => Err(e),
        }
    } else if pos == t.len() {
        let v: Vec<Definition> = Vec::new();
        proof {
            assert(v.deep_view() =~= Seq::<DefinitionV>::empty());
        }
        Ok((v, pos))
    } else {
        Err(ParseError { pos, kind: ErrorKind::UnexpectedToken })
    }
}

} // verus!
verus! {

/// Whether this is the bus-selection attribute; the executable counterpart
/// of [`spec_is_buses_attr`].
fn is_buses_attr(a: &Attr) -> (r: bool)
    ensures
        r == spec_is_buses_attr(a@),
{
    if a.path.leading_colon {
        return false;
    }
    if a.path.segments.len() != 1 {
        return false;
    }
    let r = a.path.segments[0] == "buses".to_owned();
    r
}

/// The single default bus; the executable counterpart of
/// [`spec_mmio32_type_path`].
fn mmio32_type_path() -> (r: TypePath)
    ensures
        r@ == spec_mmio32_type_path(),
{
    let mut segments: Vec<String> = Vec::new();
    segments.push("Mmio32".to_owned());
    proof {
        assert(segments.deep_view() =~= seq!["Mmio32"@]);
    }
    TypePath { qself: None, path: Path { leading_colon: false, segments } }
}

/// The non-bus attributes from index `k` on, as outer attributes; the
/// executable counterpart of [`spec_strip_attrs`] on the list's tail.
fn strip_attrs(v: &Vec<Attr>, k: usize) -> (r: Vec<Attr>)
    requires
        k <= v@.len(),
    ensures
        r.deep_view() == spec_strip_attrs(v.deep_view().skip(k as int)),
    decreases v@.len() - k,
{
    let ghost tail = v.deep_view().skip(k as int);
    if k == v.len() {
        let r: Vec<Attr> = Vec::new();
        proof {
            assert(r.deep_view() =~= Seq::<AttrV>::empty());
        }
        r
    } else {
        let mut rest = strip_attrs(v, k + 1);
        proof {
            assert(tail[0] == v.deep_view()[k as int]);
            assert(tail.skip(1) =~= v.deep_view().skip(k as int + 1));
        }
        if is_buses_attr(&v[k]) {
            rest
        } else {
            let ghost pre = rest;
            rest.insert(0, Attr { inner: false, path: clone_path(&v[k].path) });
            proof {
                lemma_deep_view_insert_front(pre, rest, rest@[0]);
                assert(rest@[0]@ == AttrV { inner: false, path: v.deep_view()[k as int].path });
            }
            rest
        }
    }
}

/// Completes one parsed definition; the executable counterpart of
/// [`spec_finish_definition`].
fn finish_definition(inner: &Vec<Attr>, d: Definition) -> (r: Definition)
    ensures
        r@ == spec_finish_definition(inner.deep_view(), d@),
{
    let ghost dv0 = d@;
    let Definition { attributes, buses: _, visibility, value } = d;
    let mut combined = clone_attrs(inner);
    let mut own = attributes;
    combined.append(&mut own);
    proof {
        assert(combined.deep_view() =~= inner.deep_view() + dv0.attributes);
        assert(combined.deep_view().skip(0) =~= combined.deep_view());
    }
    let kept = strip_attrs(&combined, 0);
    let mut buses: Vec<TypePath> = Vec::new();
    buses.push(mmio32_type_path());
    proof {
        assert(buses.deep_view() =~= seq![spec_mmio32_type_path()]);
    }
    Definition { attributes: kept, buses, visibility, value }
}


impl Input {
    /// Parses a whole invocation: the library path, the invocation's inner
    /// attributes, and the comma-separated definitions, which must reach the
    /// end of the tokens.  Each definition then receives the invocation's
    /// inner attributes (as outer ones, with the bus-selection attribute
    /// stripped) and the single default bus.
    pub fn parse(t: &Vec<Tok>) -> (r: Result<Input, ParseError>)
        ensures
            match sp_input(t@) {
                Some(v) => r matches Ok(o) && o@ == v,
                None => r is Err,
            },
    {
        let (tock_registers, i) = match parse_path(t, 0) {
            Ok(o) => o,
            Err(e) => {
                return Err(e);
            },
        };
        let (inner, j) = parse_inner_attrs(t, i);
        let (mut defs, _k) = match parse_definitions(t, j) {
            Ok(o) => o,
            Err(e) => {
                return Err(e);
            },
        };
        let ghost inner_v = inner.deep_view();
        let ghost defs0 = defs.deep_view();
        let ghost fin = |d: DefinitionV| spec_finish_definition(inner_v, d);
        let mut finished: Vec<Definition> = Vec::new();
        while defs.len() > 0
            invariant
                defs@.len() <= defs0.len(),
                inner.deep_view() == inner_v,
                forall|x: DefinitionV| #[trigger] fin(x) == spec_finish_definition(inner_v, x),
                defs.deep_view() == defs0.skip(defs0.len() - defs@.len()),
                finished.deep_view() == defs0.take(defs0.len() - defs@.len()).map_values(fin),
            decreases defs@.len(),
        {
            let ghost done = defs0.len() - defs@.len();
            let ghost pre_defs = defs.deep_view();
            let ghost pre_fin = finished.deep_view();
            let ghost pre_vec_defs = defs@;
            let d = defs.remove(0);
            proof {
                assert(pre_vec_defs.len() == pre_defs.len());
                assert(defs@ == pre_vec_defs.remove(0));
                assert(d == pre_vec_defs[0]);
                assert(d@ == pre_defs[0]);
                assert(pre_defs[0] == defs0[done]);
                assert forall|i: int| 0 <= i < defs@.len() implies defs.deep_view()[i] == defs0.skip(
                    done + 1,
                )[i] by {
                    assert(defs@[i] == pre_vec_defs[i + 1]);
                    assert(defs.deep_view()[i] == pre_defs[i + 1]);
                }
                assert(defs.deep_view() =~= defs0.skip(done + 1));
            }
            let ghost d_view = d@;
            let f = finish_definition(&inner, d);
            let ghost f_view = f@;
            let ghost pre_vec = finished@;
            finished.push(f);
            proof {
                assert(pre_fin.len() == done);
                assert(pre_vec.len() == done);
                assert(finished@.len() == done + 1);
                assert(finished@ == pre_vec.push(finished@[done]));
                assert(f_view == spec_finish_definition(inner.deep_view(), d_view));
                assert(d_view == defs0[done]);
                assert(finished@[done]@ == f_view);
                assert(finished@[done]@ == fin(defs0[done]));
                assert forall|i: int| 0 <= i < done + 1 implies finished.deep_view()[i]
                    == defs0.take(done + 1).map_values(fin)[i] by {
                    if i < done {
                        assert(finished@[i] == pre_vec[i]);
                        assert(finished.deep_view()[i] == pre_fin[i]);
                    }
                }
                assert(finished.deep_view() =~= defs0.take(done + 1).map_values(fin));
            }
        }
        proof {
            assert(defs0.take(defs0.len() as int) =~= defs0);
            assert(finished.deep_view() =~= defs0.map_values(fin));
        }
        Ok(Input { tock_registers, definitions: finished })
    }
}

/// Parsing is deterministic: the tree a token sequence parses to is a
/// function of the tokens alone, so re-parsing an identical sequence yields
/// a structurally equal specification tree.
pub proof fn lemma_parse_deterministic(t1: Seq<Tok>, t2: Seq<Tok>)
    requires
        t1 == t2,
    ensures
        sp_input(t1) == sp_input(t2),
{
}

} // verus!
