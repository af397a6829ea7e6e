//! Go types, generic constraints, package names and test assertions.

use vstd::prelude::*;
use crate::ast::{Type, TypeModel};
use crate::backend::{
    Language, assertion_text, assertion_text_of, go_constraint, go_constraint_of, package_name,
    package_name_of,
};
use crate::text::views;
use crate::text::{has_prefix, starts_with, str_eq};
use crate::type_map::{
    Lang, translated, translatable, type_translated, type_translatable, translate_type_name,
    translate_type,
};

verus! {

/// Whether the type is a `Result<T, E>` (Go uses `(T, error)` tuples).
pub open spec fn is_result_type_spec(t: TypeModel) -> bool {
    match t {
        TypeModel::Simple(s) => has_prefix(s, "Result<"@),
        TypeModel::Parameterized { base, .. } => base == "Result"@,
    }
}

/// The Go backend's type mapping.
pub struct GoBackend;

impl GoBackend {
    /// Map spec constraint strings to Go generic constraints.
    pub fn go_constraint(constraints: &[String]) -> (r: String)
        ensures
            r@ == go_constraint(views(constraints@)),
    {
        go_constraint_of(constraints)
    }

    /// The Go package name of a spec name.
    pub fn sanitize_package_name(name: &str) -> (r: String)
        ensures
            r@ == package_name(name@),
    {
        package_name_of(name)
    }

    /// Convert an AST type to a Go type string.
    pub fn to_go_type(typ: &Type) -> (r: String)
        requires
            type_translatable(Lang::Go, typ@),
        ensures
            r@ == type_translated(Lang::Go, typ@),
    {
        translate_type(Lang::Go, typ)
    }

    /// Translate a type name string to a Go type expression.
    pub fn translate_simple_type(s: &str) -> (r: String)
        requires
            translatable(Lang::Go, s@),
        ensures
            r@ == translated(Lang::Go, s@),
    {
        translate_type_name(Lang::Go, s)
    }

    /// Return true if the type is a `Result<T, E>`.
    pub fn is_result_type(typ: &Type) -> (r: bool)
        ensures
            r == is_result_type_spec(typ@),
    {
        match typ {
            Type::Simple(s) => starts_with(s.as_str(), "Result<"),
            Type::Parameterized { base, .. } => str_eq(base.as_str(), "Result"),
        }
    }
}

/// A test assertion in Go syntax: `assert!` and `assert_eq!` are
/// translated, anything else is kept.
pub fn translate_assertion(a: &str) -> (r: String)
    ensures
        r@ == assertion_text(Language::Go, a@),
{
    assertion_text_of(Language::Go, a)
}

} // verus!
