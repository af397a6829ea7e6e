//! Python types and test assertions.

use vstd::prelude::*;
use crate::ast::{Type, TypeModel};
use crate::backend::{Language, assertion_text, assertion_text_of};
use crate::text::{has_prefix, starts_with, str_eq};
use crate::type_map::{
    Lang, translated, translatable, type_translated, type_translatable, translate_type_name,
    translate_type,
};

verus! {

/// Whether the type is a `Result<T, E>` (Python handles it via exceptions).
pub open spec fn is_result_type_spec(t: TypeModel) -> bool {
    match t {
        TypeModel::Simple(s) => has_prefix(s, "Result<"@),
        TypeModel::Parameterized { base, .. } => base == "Result"@,
    }
}

/// Convert an AST type to a Python type string.
pub fn to_python_type(typ: &Type) -> (r: String)
    requires
        type_translatable(Lang::Python, typ@),
    ensures
        r@ == type_translated(Lang::Python, typ@),
{
    translate_type(Lang::Python, typ)
}

/// Translate a type name string to a Python type expression.
pub fn translate_simple_type(s: &str) -> (r: String)
    requires
        translatable(Lang::Python, s@),
    ensures
        r@ == translated(Lang::Python, s@),
{
    translate_type_name(Lang::Python, s)
}

/// Return true if the type is a `Result<T, E>`.
pub fn is_result_type(typ: &Type) -> (r: bool)
    ensures
        r == is_result_type_spec(typ@),
{
        match typ {
            Type::Simple(s) => starts_with(s.as_str(), "Result<"),
            Type::Parameterized { base, .. } => str_eq(base.as_str(), "Result"),
        }
}

/// A test assertion in Python syntax: `assert!` and `assert_eq!` are
/// translated, anything else is kept.
pub fn translate_assertion(a: &str) -> (r: String)
    ensures
        r@ == assertion_text(Language::Python, a@),
{
    assertion_text_of(Language::Python, a)
}

} // verus!
