//! C# types and test assertions.

use vstd::prelude::*;
use crate::ast::{Type, TypeModel};
use crate::backend::{Language, assertion_text, assertion_text_of};
use crate::text::{has_prefix, starts_with, str_eq};
use crate::type_map::{
    Lang, translated, translatable, type_translated, type_translatable, translate_type_name,
    translate_type,
};

verus! {

/// Whether the type is a `Result<T, E>` written as one string (a
/// parameterized type never counts).
pub open spec fn is_result_type_spec(t: TypeModel) -> bool {
    match t {
        TypeModel::Simple(s) => has_prefix(s, "Result<"@),
        TypeModel::Parameterized { .. } => false,
    }
}

/// The C# backend's type mapping.
pub struct CSharpBackend;

impl CSharpBackend {
    /// Convert an AST type to a C# type string.
    pub fn to_csharp_type(typ: &Type) -> (r: String)
        requires
            type_translatable(Lang::CSharp, typ@),
        ensures
            r@ == type_translated(Lang::CSharp, typ@),
    {
        translate_type(Lang::CSharp, typ)
    }

    /// Translate a type name string to a C# type expression.
    pub fn translate_simple_type(s: &str) -> (r: String)
        requires
            translatable(Lang::CSharp, s@),
        ensures
            r@ == translated(Lang::CSharp, s@),
    {
        translate_type_name(Lang::CSharp, s)
    }

    /// Return true if the type is a `Result<T, E>`.
    pub fn is_result_type(typ: &Type) -> (r: bool)
        ensures
            r == is_result_type_spec(typ@),
    {
        match typ {
            Type::Simple(s) => starts_with(s.as_str(), "Result<"),
            _ => false,
        }
    }
}

/// A test assertion in C# syntax: `assert!` and `assert_eq!` are
/// translated, anything else is kept.
pub fn translate_assertion(a: &str) -> (r: String)
    ensures
        r@ == assertion_text(Language::CSharp, a@),
{
    assertion_text_of(Language::CSharp, a)
}

} // verus!
