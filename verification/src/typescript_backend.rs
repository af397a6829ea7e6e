//! TypeScript types and test assertions.

use vstd::prelude::*;
use crate::ast::{Type, TypeModel};
use crate::backend::{Language, assertion_text, assertion_text_of};
use crate::text::{has_prefix, starts_with, str_eq};
use crate::type_map::{
    Lang, translated, translatable, type_translated, type_translatable, translate_type_name,
    translate_type,
};

verus! {

/// Whether the type is a `Result<T, E>` (TypeScript uses exceptions).
pub open spec fn is_result_type_spec(t: TypeModel) -> bool {
    match t {
        TypeModel::Simple(s) => has_prefix(s, "Result<"@),
        TypeModel::Parameterized { base, .. } => base == "Result"@,
    }
}

/// The TypeScript backend's type mapping.
pub struct TypeScriptBackend;

impl TypeScriptBackend {
    /// Convert an AST type to a TypeScript type string.
    pub fn to_typescript_type(typ: &Type) -> (r: String)
        requires
            type_translatable(Lang::TypeScript, typ@),
        ensures
            r@ == type_translated(Lang::TypeScript, typ@),
    {
        translate_type(Lang::TypeScript, typ)
    }

    /// Translate a type name string to a TypeScript type expression.
    pub fn translate_simple_type(s: &str) -> (r: String)
        requires
            translatable(Lang::TypeScript, s@),
        ensures
            r@ == translated(Lang::TypeScript, s@),
    {
        translate_type_name(Lang::TypeScript, s)
    }

    /// Return true if the type is a `Result<T, E>`.
    pub fn is_result_type(typ: &Type) -> (r: bool)
        ensures
            r == is_result_type_spec(typ@),
    {
        match typ {
            Type::Simple(s) => starts_with(s.as_str(), "Result<"),
            Type::Parameterized { base, .. } => str_eq(base.as_str(), "Result"),
        }
    }
}

/// A test assertion in TypeScript syntax: `assert!` and `assert_eq!` are
/// translated, anything else is kept.
pub fn translate_assertion(a: &str) -> (r: String)
    ensures
        r@ == assertion_text(Language::TypeScript, a@),
{
    assertion_text_of(Language::TypeScript, a)
}

} // verus!
