//! Identifier conventions: schema names become snake case field identifiers,
//! unless they are reserved words, which are escaped instead.
use vstd::prelude::*;
use crate::schema::opt_view;

verus! {

/// What heck's snake case conversion returns for a string.
pub uninterp spec fn snake_of(s: Seq<char>) -> Seq<char>;

/// What heck's upper camel case conversion returns for a string.
pub uninterp spec fn camel_of(s: Seq<char>) -> Seq<char>;

/// Relies on `heck::SnakeCase::to_snake_case` for `str`: its result depends on
/// the characters alone.
#[verifier::external_body]
pub(crate) fn to_snake_case(s: &str) -> (r: String)
    ensures
        r@ == snake_of(s@),
{
    heck::SnakeCase::to_snake_case(s)
}

/// Relies on `heck::CamelCase::to_camel_case` for `str`: its result depends on
/// the characters alone.
#[verifier::external_body]
pub(crate) fn to_camel_case(s: &str) -> (r: String)
    ensures
        r@ == camel_of(s@),
{
    heck::CamelCase::to_camel_case(s)
}

/// How a reserved word is turned into a usable identifier.
#[derive(Clone, Copy, Debug, PartialEq, Eq, Structural)]
pub enum EscapeStrategy {
    /// Append a single `_`.
    TrailingUnderscore,
}

/// The reserved-word table: the escape strategy of each reserved word.
pub open spec fn reserved_spec(name: Seq<char>) -> Option<EscapeStrategy> {
    if name == "type"@ {
        Some(EscapeStrategy::TrailingUnderscore)
    } else {
        None
    }
}

/// The identifier that an escape strategy makes of a reserved word.
pub open spec fn escape_spec(strategy: EscapeStrategy, name: Seq<char>) -> Seq<char> {
    match strategy {
        EscapeStrategy::TrailingUnderscore => name.push('_'),
    }
}

/// The output identifier of a schema name: escaped if reserved, otherwise
/// converted to snake case.
pub open spec fn ident_spec(name: Seq<char>) -> Seq<char> {
    match reserved_spec(name) {
        Some(strategy) => escape_spec(strategy, name),
        None => snake_of(name),
    }
}

/// The rename metadata of a schema name: the name itself when it is reserved
/// or when its identifier differs from it, otherwise none.
pub open spec fn rename_spec(name: Seq<char>) -> Option<Seq<char>> {
    if reserved_spec(name) is Some || ident_spec(name) != name {
        Some(name)
    } else {
        None
    }
}

/// An output identifier together with the schema name to rename it from, if any.
pub struct ConvertedName {
    pub ident: String,
    pub rename: Option<String>,
}

fn reserved_escape(name: &str) -> (r: Option<EscapeStrategy>)
    ensures
        r == reserved_spec(name@),
{
    let owned = String::from_str(name);
    let word = String::from_str("type");
    proof {
        reveal_strlit("type");
    }
    if owned == word {
        Some(EscapeStrategy::TrailingUnderscore)
    } else {
        None
    }
}

fn apply_escape(strategy: EscapeStrategy, name: &str) -> (r: String)
    ensures
        r@ == escape_spec(strategy, name@),
{
    match strategy {
        EscapeStrategy::TrailingUnderscore => {
            let mut out = String::from_str(name);
            out.append("_");
            proof {
                reveal_strlit("_");
                assert(out@ =~= name@.push('_'));
            }
            out
        },
    }
}

/// The rename metadata for a schema name and its output identifier: the
/// schema name when the two differ, otherwise none.
pub fn field_rename_annotation(graphql_name: &str, rust_name: &str) -> (r: Option<String>)
    ensures
        opt_view(r) == (if graphql_name@ != rust_name@ {
            Some(graphql_name@)
        } else {
            None::<Seq<char>>
        }),
{
    let schema_name = String::from_str(graphql_name);
    let output_name = String::from_str(rust_name);
    if schema_name == output_name {
        None
    } else {
        Some(schema_name)
    }
}

/// Converts a schema field name to its output identifier. The reserved-word
/// table is consulted before case conversion, and a reserved word always gets
/// rename metadata.
pub fn convert_field_name(name: &str) -> (r: ConvertedName)
    ensures
        r.ident@ == ident_spec(name@),
        opt_view(r.rename) == rename_spec(name@),
{
    match reserved_escape(name) {
        Some(strategy) => {
            let ident = apply_escape(strategy, name);
            ConvertedName { ident, rename: Some(String::from_str(name)) }
        },
        None => {
            let ident = to_snake_case(name);
            let rename = field_rename_annotation(name, ident.as_str());
            ConvertedName { ident, rename }
        },
    }
}

} // verus!
