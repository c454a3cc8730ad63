//! The token alphabet of the declarative input language.  An invocation's
//! token stream is flattened into a sequence of these tokens before parsing;
//! a delimited group becomes an `Open`/`Close` pair.
use vstd::prelude::*;

use crate::ast::Attr;

verus! {

/// A delimiter kind.
#[derive(Clone, Copy, Debug, PartialEq, Eq, Structural)]
pub enum Delim {
    Brace,
    Bracket,
}

/// One token of the input language.
#[derive(Debug, PartialEq, Eq)]
pub enum Tok {
    /// A plain identifier.
    Ident(String),
    /// An integer literal.
    Lit(u128),
    /// The `pub` keyword.
    KwPub,
    /// The `as` keyword.
    KwAs,
    /// `_`
    Underscore,
    /// `:`
    Colon,
    /// `,`
    Comma,
    /// `;`
    Semi,
    /// `=>`
    FatArrow,
    /// `::`
    PathSep,
    /// `<`
    Lt,
    /// `>`
    Gt,
    /// An opening delimiter.
    Open(Delim),
    /// A closing delimiter.
    Close(Delim),
    /// A whole attribute, `#[...]` or `#![...]`, carried as one token.
    Attr(Attr),
}

} // verus!
