//! What each language backend generates from a spec: the template contexts,
//! the templates, the file names, and the list of files to render.
//!
//! A spec without structs becomes one file rendered from the language's
//! monolithic template. Otherwise the first struct becomes a class file and
//! every method a file of its own.

use vstd::prelude::*;
use crate::ast::{
    Spec, SpecModel, Metadata, MetadataModel, StructDef, StructDefModel, GenericParam,
    GenericParamModel, FieldDef, FieldDefModel, MethodDef, MethodDefModel, ParamDefModel,
    Verification, VerificationModel, TestCaseModel, TestCase, TypeModel, Type, display,
};
use crate::assertion::{assert_bang_inner, assert_eq_args, parse_assert_bang, parse_assert_eq};
use crate::casing::{
    camel_case, pascal_case, to_camel_case, to_pascal_case, unicode_lowercase,
    unicode_alphanumeric, to_lowercase, is_alphanumeric,
};
use crate::context::{
    MetadataContext, MetadataContextModel, ComplexityContext, ContractsContext,
    VerificationContext, TestContext, GenericContext, GenericContextModel, FieldContext,
    FieldContextModel, StructContext, StructContextModel, RawStructContext, RawStructContextModel,
    MethodContext, MethodContextModel, TemplateContext, TemplateContextModel,
};
use crate::error::BackendError;
use crate::template_engine::{sanitized, sanitize_filename, duplicate_name_message, validate_unique_names};
use crate::text::{
    join, views, has_prefix, trim, TrimSet, owned, concat2, concat3, join_strings, str_eq,
    starts_with, trim_str, clone_strings, clone_opt, chars_of, push_char,
};
use crate::type_map::{
    Lang, translated, translatable, type_translated, type_translatable, translate_type_name,
    translate_type, is_translatable, is_type_translatable,
};

verus! {

/// A target language.
#[derive(Clone, Copy)]
pub enum Language {
    Rust,
    Python,
    TypeScript,
    CSharp,
    Go,
}

/// The type syntax of a language other than Rust.
pub open spec fn lang_of(b: Language) -> Lang {
    match b {
        Language::Python => Lang::Python,
        Language::TypeScript => Lang::TypeScript,
        Language::CSharp => Lang::CSharp,
        _ => Lang::Go,
    }
}

fn lang_of_exec(b: Language) -> (r: Lang)
    ensures
        r == lang_of(b),
{
    match b {
        Language::Python => Lang::Python,
        Language::TypeScript => Lang::TypeScript,
        Language::CSharp => Lang::CSharp,
        _ => Lang::Go,
    }
}

// ---------------------------------------------------------------------
// Names, types, bounds
// ---------------------------------------------------------------------

/// The name of a field or method: camelCase in TypeScript, PascalCase in
/// C# and Go, unchanged in Rust and Python.
pub open spec fn member_name(b: Language, n: Seq<char>) -> Seq<char> {
    match b {
        Language::TypeScript => camel_case(n),
        Language::CSharp => pascal_case(n),
        Language::Go => pascal_case(n),
        _ => n,
    }
}

/// The name of a parameter: camelCase except in Rust and Python.
pub open spec fn param_name(b: Language, n: Seq<char>) -> Seq<char> {
    match b {
        Language::Rust => n,
        Language::Python => n,
        _ => camel_case(n),
    }
}

/// A type as the language writes it (Rust keeps the spec's text).
pub open spec fn type_text(b: Language, t: TypeModel) -> Seq<char> {
    match b {
        Language::Rust => display(t),
        _ => type_translated(lang_of(b), t),
    }
}

/// A return type name as the language writes it.
pub open spec fn return_text(b: Language, r: Seq<char>) -> Seq<char> {
    match b {
        Language::Rust => r,
        _ => translated(lang_of(b), r),
    }
}

/// The method reports errors by raising (Go: by returning an error): its
/// return type is a `Result<..>`.
pub open spec fn raises(b: Language, returns: Option<Seq<char>>) -> bool {
    !(b is Rust) && (returns matches Some(r) && has_prefix(r, "Result<"@))
}

/// Go's constraint for spec constraints: ordered for `Ord`, comparable for
/// `comparable`, `Eq` or `PartialEq`, `any` otherwise.
pub open spec fn go_constraint(cs: Seq<Seq<char>>) -> Seq<char> {
    if cs.len() == 0 {
        "any"@
    } else if cs.contains("Ord"@) {
        "constraints.Ordered"@
    } else if cs.contains("comparable"@) {
        "comparable"@
    } else if cs.contains("Eq"@) || cs.contains("PartialEq"@) {
        "comparable"@
    } else {
        "any"@
    }
}

/// The bound of a generic parameter as the language writes it; a Go method
/// file leaves it empty.
pub open spec fn generic_bound(b: Language, g: GenericParamModel, in_method: bool) -> Seq<char> {
    match b {
        Language::Rust => join(g.constraints, " + "@),
        Language::Python => join(g.constraints, ", "@),
        Language::TypeScript => join(g.constraints, " & "@),
        Language::CSharp => if g.constraints.len() == 0 {
            Seq::empty()
        } else {
            "where "@ + g.name + " : "@ + join(g.constraints, ", "@)
        },
        Language::Go => if in_method {
            Seq::empty()
        } else {
            go_constraint(g.constraints)
        },
    }
}

/// The characters of `s` that a Go package name keeps: alphanumerics and `_`.
pub open spec fn package_chars(s: Seq<char>) -> Seq<char>
    decreases s.len(),
{
    if s.len() == 0 {
        Seq::empty()
    } else if unicode_alphanumeric(s.last()) || s.last() == '_' {
        package_chars(s.drop_last()).push(s.last())
    } else {
        package_chars(s.drop_last())
    }
}

/// The Go package name of a spec name.
pub open spec fn package_name(n: Seq<char>) -> Seq<char> {
    unicode_lowercase(package_chars(n))
}

// ---------------------------------------------------------------------
// Assertions
// ---------------------------------------------------------------------

/// `assert!(e)` in the language's test syntax.
pub open spec fn bang_form(b: Language, e: Seq<char>) -> Seq<char> {
    let t = trim(e, TrimSet::Whitespace);
    match b {
        Language::Python => "assert "@ + t,
        Language::TypeScript => "expect("@ + t + ").toBe(true)"@,
        Language::CSharp => "Assert.IsTrue("@ + t + ")"@,
        _ => "if !("@ + e + ") { t.Errorf(\"assertion failed: "@ + e + "\") }"@,
    }
}

/// `assert_eq!(l, r)` in the language's test syntax.
pub open spec fn eq_form(b: Language, l: Seq<char>, r: Seq<char>) -> Seq<char> {
    match b {
        Language::Python => "assert "@ + l + " == "@ + r,
        Language::TypeScript => "expect("@ + l + ").toBe("@ + r + ")"@,
        Language::CSharp => "Assert.AreEqual("@ + l + ", "@ + r + ")"@,
        _ => "if "@ + l + " != "@ + r + " { t.Errorf(\"got %v, want %v\", "@ + l + ", "@ + r
            + ") }"@,
    }
}

/// A test assertion as the language writes it: `assert!` and `assert_eq!`
/// are translated, anything else (and everything in Rust) is kept.
pub open spec fn assertion_text(b: Language, a: Seq<char>) -> Seq<char> {
    if b is Rust {
        a
    } else {
        match assert_bang_inner(a) {
            Some(e) => bang_form(b, e),
            None => match assert_eq_args(a) {
                Some((l, r)) => eq_form(b, l, r),
                None => a,
            },
        }
    }
}

// ---------------------------------------------------------------------
// Contexts
// ---------------------------------------------------------------------

pub open spec fn generic_context(b: Language, g: GenericParamModel, in_method: bool) -> GenericContextModel {
    GenericContextModel { name: g.name, bound: generic_bound(b, g, in_method) }
}

pub open spec fn field_context(b: Language, f: FieldDefModel) -> FieldContextModel {
    FieldContextModel { name: member_name(b, f.name), type_text: type_text(b, f.field_type) }
}

pub open spec fn param_context(b: Language, p: ParamDefModel) -> FieldContextModel {
    FieldContextModel { name: param_name(b, p.name), type_text: type_text(b, p.param_type) }
}

/// A struct as the language's templates see it; a method file's struct has
/// no fields.
pub open spec fn struct_context(b: Language, d: StructDefModel, in_method: bool) -> StructContextModel {
    StructContextModel {
        name: d.name,
        generics: d.generics.map_values(|g: GenericParamModel| generic_context(b, g, in_method)),
        fields: if in_method {
            Seq::empty()
        } else {
            d.fields.map_values(|f: FieldDefModel| field_context(b, f))
        },
    }
}

/// A struct whose fields keep their spec types (Rust's monolithic template).
pub open spec fn raw_struct_context(d: StructDefModel) -> RawStructContextModel {
    RawStructContextModel {
        name: d.name,
        generics: d.generics.map_values(
            |g: GenericParamModel| generic_context(Language::Rust, g, false),
        ),
        fields: d.fields,
    }
}

/// A method as the language's templates see it.
pub open spec fn method_context(b: Language, m: MethodDefModel) -> MethodContextModel {
    MethodContextModel {
        name: member_name(b, m.name),
        params: m.params.map_values(|p: ParamDefModel| param_context(b, p)),
        returns: match m.returns {
            Some(r) => Some(return_text(b, r)),
            None => None,
        },
        raises: raises(b, m.returns),
        preconditions: m.preconditions,
        postconditions: m.postconditions,
        injected_assertions: m.injected_assertions,
    }
}

/// A test case with its assertions in the language's syntax.
pub open spec fn test_context(b: Language, t: TestCaseModel) -> TestCaseModel {
    TestCaseModel {
        assertions: t.assertions.map_values(|a: Seq<char>| assertion_text(b, a)),
        ..t
    }
}

pub open spec fn verification_context(b: Language, v: VerificationModel) -> VerificationModel {
    VerificationModel { test_cases: v.test_cases.map_values(|t: TestCaseModel| test_context(b, t)) }
}

pub open spec fn metadata_context(b: Language, md: MetadataModel) -> MetadataContextModel {
    MetadataContextModel {
        name: md.name,
        complexity: md.complexity,
        package_name: if b is Go {
            Some(package_name(md.name))
        } else {
            None
        },
    }
}

/// The context of the monolithic template (a spec without structs).
pub open spec fn monolithic_context(b: Language, s: SpecModel) -> TemplateContextModel {
    TemplateContextModel {
        metadata: metadata_context(b, s.metadata),
        contracts: Some(s.contracts),
        structs: if b is Rust {
            None
        } else {
            Some(s.structs.map_values(|d: StructDefModel| struct_context(b, d, false)))
        },
        raw_structs: if b is Rust {
            Some(s.structs.map_values(|d: StructDefModel| raw_struct_context(d)))
        } else {
            None
        },
        struct_def: None,
        methods: if b is Rust {
            None
        } else {
            Some(s.methods.map_values(|m: MethodDefModel| method_context(b, m)))
        },
        raw_methods: if b is Rust {
            Some(s.methods)
        } else {
            None
        },
        method: None,
        verification: Some(verification_context(b, s.verification)),
    }
}

/// The context of the class template: the first struct.
pub open spec fn class_context(b: Language, s: SpecModel) -> TemplateContextModel {
    TemplateContextModel {
        metadata: metadata_context(b, s.metadata),
        contracts: Some(s.contracts),
        structs: None,
        raw_structs: None,
        struct_def: if s.structs.len() > 0 {
            Some(struct_context(b, s.structs[0], false))
        } else {
            None
        },
        methods: None,
        raw_methods: None,
        method: None,
        verification: None,
    }
}

/// The context of a method file; only Rust and TypeScript pass the
/// invariants.
pub open spec fn method_file_context(b: Language, s: SpecModel, m: MethodDefModel) -> TemplateContextModel {
    TemplateContextModel {
        metadata: metadata_context(b, s.metadata),
        contracts: if b is Rust || b is TypeScript {
            Some(s.contracts)
        } else {
            None
        },
        structs: None,
        raw_structs: None,
        struct_def: if s.structs.len() > 0 {
            Some(struct_context(b, s.structs[0], true))
        } else {
            None
        },
        methods: None,
        raw_methods: None,
        method: Some(method_context(b, m)),
        verification: Some(verification_context(b, s.verification)),
    }
}

// ---------------------------------------------------------------------
// When the type names translate
// ---------------------------------------------------------------------

pub open spec fn struct_translatable(b: Language, d: StructDefModel) -> bool {
    b is Rust || forall|i: int|
        0 <= i < d.fields.len() ==> #[trigger] type_translatable(
            lang_of(b),
            d.fields[i].field_type,
        )
}

pub open spec fn method_translatable(b: Language, m: MethodDefModel) -> bool {
    b is Rust || ((forall|i: int|
        0 <= i < m.params.len() ==> #[trigger] type_translatable(
            lang_of(b),
            m.params[i].param_type,
        )) && (m.returns matches Some(r) ==> translatable(lang_of(b), r)))
}

pub open spec fn monolithic_translatable(b: Language, s: SpecModel) -> bool {
    &&& forall|i: int| 0 <= i < s.structs.len() ==> #[trigger] struct_translatable(b, s.structs[i])
    &&& forall|i: int| 0 <= i < s.methods.len() ==> #[trigger] method_translatable(b, s.methods[i])
}

pub open spec fn class_translatable(b: Language, s: SpecModel) -> bool {
    s.structs.len() > 0 ==> struct_translatable(b, s.structs[0])
}

/// Every type that generating files for `s` translates can be translated.
pub open spec fn plan_translatable(b: Language, s: SpecModel) -> bool {
    if s.structs.len() == 0 {
        monolithic_translatable(b, s)
    } else {
        class_translatable(b, s) && forall|i: int|
            0 <= i < s.methods.len() ==> #[trigger] method_translatable(b, s.methods[i])
    }
}

// ---------------------------------------------------------------------
// Executable builders
// ---------------------------------------------------------------------

fn member_name_exec(b: Language, n: &str) -> (r: String)
    ensures
        r@ == member_name(b, n@),
{
    match b {
        Language::TypeScript => to_camel_case(n),
        Language::CSharp => to_pascal_case(n),
        Language::Go => to_pascal_case(n),
        _ => owned(n),
    }
}

fn param_name_exec(b: Language, n: &str) -> (r: String)
    ensures
        r@ == param_name(b, n@),
{
    match b {
        Language::Rust => owned(n),
        Language::Python => owned(n),
        _ => to_camel_case(n),
    }
}

fn type_text_exec(b: Language, t: &Type) -> (r: String)
    requires
        b is Rust || type_translatable(lang_of(b), t@),
    ensures
        r@ == type_text(b, t@),
{
    match b {
        Language::Rust => t.to_string(),
        _ => translate_type(lang_of_exec(b), t),
    }
}

/// Whether `v` holds `x`.
fn has_string(v: &[String], x: &str) -> (r: bool)
    ensures
        r == views(v@).contains(x@),
{
    let mut i: usize = 0;
    while i < v.len()
        invariant
            0 <= i <= v.len(),
            forall|k: int| 0 <= k < i ==> v@[k]@ != x@,
        decreases v.len() - i,
    {
        if str_eq(v[i].as_str(), x) {
            assert(views(v@)[i as int] == x@);
            return true;
        }
        i = i + 1;
    }
    assert forall|k: int| 0 <= k < views(v@).len() implies views(v@)[k] != x@ by {
        assert(views(v@)[k] == v@[k]@);
    }
    false
}

/// Map spec constraint strings to Go generic constraints.
pub fn go_constraint_of(constraints: &[String]) -> (r: String)
    ensures
        r@ == go_constraint(views(constraints@)),
{
    if constraints.len() == 0 {
        return owned("any");
    }
    if has_string(constraints, "Ord") {
        return owned("constraints.Ordered");
    }
    if has_string(constraints, "comparable") {
        return owned("comparable");
    }
    if has_string(constraints, "Eq") || has_string(constraints, "PartialEq") {
        return owned("comparable");
    }
    owned("any")
}

fn generic_bound_exec(b: Language, g: &GenericParam, in_method: bool) -> (r: String)
    ensures
        r@ == generic_bound(b, g@, in_method),
{
    match b {
        Language::Rust => join_strings(&g.constraints, " + "),
        Language::Python => join_strings(&g.constraints, ", "),
        Language::TypeScript => join_strings(&g.constraints, " & "),
        Language::CSharp => {
            if g.constraints.len() == 0 {
                String::new()
            } else {
                let mut r = concat3("where ", g.name.as_str(), " : ");
                r.append(join_strings(&g.constraints, ", ").as_str());
                r
            }
        },
        Language::Go => {
            if in_method {
                String::new()
            } else {
                go_constraint_of(g.constraints.as_slice())
            }
        },
    }
}

fn generics_exec(b: Language, gs: &Vec<GenericParam>, in_method: bool) -> (r: Vec<GenericContext>)
    ensures
        r@.map_values(|c: GenericContext| c@) == gs@.map_values(|g: GenericParam| g@).map_values(
            |g: GenericParamModel| generic_context(b, g, in_method),
        ),
{
    let mut r: Vec<GenericContext> = Vec::new();
    let mut i: usize = 0;
    while i < gs.len()
        invariant
            0 <= i <= gs.len(),
            r@.len() == i,
            forall|k: int| 0 <= k < i ==> #[trigger] r@[k]@ == generic_context(b, gs@[k]@, in_method),
        decreases gs.len() - i,
    {
        let g = &gs[i];
        r.push(GenericContext { name: g.name.clone(), bound: generic_bound_exec(b, g, in_method) });
        i = i + 1;
    }
    assert(r@.map_values(|c: GenericContext| c@) =~= gs@.map_values(|g: GenericParam| g@).map_values(
        |g: GenericParamModel| generic_context(b, g, in_method),
    ));
    r
}

/// The struct context of `d` (fields left out for a method file).
pub fn struct_context_of(b: Language, d: &StructDef, in_method: bool) -> (r: StructContext)
    requires
        in_method || struct_translatable(b, d@),
    ensures
        r@ == struct_context(b, d@, in_method),
{
    let generics = generics_exec(b, &d.generics, in_method);
    let mut fields: Vec<FieldContext> = Vec::new();
    if !in_method {
        let mut i: usize = 0;
        while i < d.fields.len()
            invariant
                0 <= i <= d.fields.len(),
                struct_translatable(b, d@),
                fields@.len() == i,
                forall|k: int| 0 <= k < i ==> #[trigger] fields@[k]@ == field_context(b, d.fields@[k]@),
            decreases d.fields.len() - i,
        {
            let f = &d.fields[i];
            assert(d@.fields[i as int] == f@);
            assert(b is Rust || type_translatable(lang_of(b), d@.fields[i as int].field_type));
            let name = member_name_exec(b, f.name.as_str());
            let type_text = type_text_exec(b, &f.field_type);
            fields.push(FieldContext { name, type_text });
            i = i + 1;
        }
    }
    let r = StructContext { name: d.name.clone(), generics, fields };
    assert(r@.fields =~= struct_context(b, d@, in_method).fields);
    r
}

/// The Rust monolithic struct context of `d`.
fn raw_struct_context_of(d: &StructDef) -> (r: RawStructContext)
    ensures
        r@ == raw_struct_context(d@),
{
    let c = d.clone();
    let generics = generics_exec(Language::Rust, &d.generics, false);
    let r = RawStructContext { name: c.name, generics, fields: c.fields };
    r
}

/// The method context of `m`.
pub fn method_context_of(b: Language, m: &MethodDef) -> (r: MethodContext)
    requires
        method_translatable(b, m@),
    ensures
        r@ == method_context(b, m@),
{
    let mut params: Vec<FieldContext> = Vec::new();
    let mut i: usize = 0;
    while i < m.params.len()
        invariant
            0 <= i <= m.params.len(),
            method_translatable(b, m@),
            params@.len() == i,
            forall|k: int| 0 <= k < i ==> #[trigger] params@[k]@ == param_context(b, m.params@[k]@),
        decreases m.params.len() - i,
    {
        let p = &m.params[i];
        assert(m@.params[i as int] == p@);
        assert(b is Rust || type_translatable(lang_of(b), m@.params[i as int].param_type));
        let name = param_name_exec(b, p.name.as_str());
        let type_text = type_text_exec(b, &p.param_type);
        params.push(FieldContext { name, type_text });
        i = i + 1;
    }
    let ret = match &m.returns {
        Some(r) => match b {
            Language::Rust => Some(r.clone()),
            _ => Some(translate_type_name(lang_of_exec(b), r.as_str())),
        },
        None => None,
    };
    let raises = match b {
        Language::Rust => false,
        _ => match &m.returns {
            Some(r) => starts_with(r.as_str(), "Result<"),
            None => false,
        },
    };
    let r = MethodContext {
        name: member_name_exec(b, m.name.as_str()),
        params,
        returns: ret,
        raises,
        preconditions: clone_strings(&m.preconditions),
        postconditions: clone_strings(&m.postconditions),
        injected_assertions: clone_strings(&m.injected_assertions),
    };
    assert(r@.params =~= method_context(b, m@).params);
    r
}

/// A test assertion in the language's syntax.
pub fn assertion_text_of(b: Language, a: &str) -> (r: String)
    ensures
        r@ == assertion_text(b, a@),
{
    if let Language::Rust = b {
        return owned(a);
    }
    match parse_assert_bang(a) {
        Some(expr) => {
            let t = trim_str(expr);
            match b {
                Language::Python => concat2("assert ", t),
                Language::TypeScript => concat3("expect(", t, ").toBe(true)"),
                Language::CSharp => concat3("Assert.IsTrue(", t, ")"),
                _ => {
                    let mut r = concat3("if !(", expr, ") { t.Errorf(\"assertion failed: ");
                    r.append(expr);
                    r.append("\") }");
                    r
                },
            }
        },
        None => match parse_assert_eq(a) {
            Some((left, right)) => match b {
                Language::Python => {
                    let mut r = concat3("assert ", left, " == ");
                    r.append(right);
                    r
                },
                Language::TypeScript => {
                    let mut r = concat3("expect(", left, ").toBe(");
                    r.append(right);
                    r.append(")");
                    r
                },
                Language::CSharp => {
                    let mut r = concat3("Assert.AreEqual(", left, ", ");
                    r.append(right);
                    r.append(")");
                    r
                },
                _ => {
                    let mut r = concat3("if ", left, " != ");
                    r.append(right);
                    r.append(" { t.Errorf(\"got %v, want %v\", ");
                    r.append(left);
                    r.append(", ");
                    r.append(right);
                    r.append(") }");
                    r
                },
            },
            None => owned(a),
        },
    }
}

fn test_context_of(b: Language, t: &TestCase) -> (r: TestContext)
    ensures
        r@ == test_context(b, t@),
{
    let mut assertions: Vec<String> = Vec::new();
    let mut i: usize = 0;
    while i < t.assertions.len()
        invariant
            0 <= i <= t.assertions.len(),
            assertions@.len() == i,
            forall|k: int|
                0 <= k < i ==> #[trigger] assertions@[k]@ == assertion_text(b, t.assertions@[k]@),
        decreases t.assertions.len() - i,
    {
        assertions.push(assertion_text_of(b, t.assertions[i].as_str()));
        i = i + 1;
    }
    let r = TestContext {
        name: t.name.clone(),
        setup: clone_opt(&t.setup),
        actions: clone_strings(&t.actions),
        assertions,
    };
    assert(r@.assertions =~= test_context(b, t@).assertions);
    r
}

/// The test cases with their assertions in the language's syntax.
pub fn verification_context_of(b: Language, v: &Verification) -> (r: VerificationContext)
    ensures
        r@ == verification_context(b, v@),
{
    let mut test_cases: Vec<TestContext> = Vec::new();
    let mut i: usize = 0;
    while i < v.test_cases.len()
        invariant
            0 <= i <= v.test_cases.len(),
            test_cases@.len() == i,
            forall|k: int| 0 <= k < i ==> #[trigger] test_cases@[k]@ == test_context(b, v.test_cases@[k]@),
        decreases v.test_cases.len() - i,
    {
        test_cases.push(test_context_of(b, &v.test_cases[i]));
        i = i + 1;
    }
    let r = VerificationContext { test_cases };
    assert(r@.test_cases =~= verification_context(b, v@).test_cases);
    r
}

/// The Go package name of a spec name: its alphanumerics and underscores,
/// lowercased.
pub fn package_name_of(name: &str) -> (r: String)
    ensures
        r@ == package_name(name@),
{
    let cs = chars_of(name);
    let mut kept = String::new();
    let mut i: usize = 0;
    while i < cs.len()
        invariant
            0 <= i <= cs.len(),
            cs@ == name@,
            kept@ == package_chars(cs@.subrange(0, i as int)),
        decreases cs.len() - i,
    {
        let c = cs[i];
        assert(cs@.subrange(0, i + 1).drop_last() =~= cs@.subrange(0, i as int));
        if is_alphanumeric(c) || c == '_' {
            push_char(&mut kept, c);
        }
        i = i + 1;
    }
    assert(cs@.subrange(0, cs@.len() as int) =~= cs@);
    to_lowercase(kept.as_str())
}

fn metadata_context_of(b: Language, md: &Metadata) -> (r: MetadataContext)
    ensures
        r@ == metadata_context(b, md@),
{
    let package_name = match b {
        Language::Go => Some(package_name_of(md.name.as_str())),
        _ => None,
    };
    MetadataContext {
        name: md.name.clone(),
        complexity: ComplexityContext {
            time: clone_opt(&md.complexity.time),
            space: clone_opt(&md.complexity.space),
        },
        package_name,
    }
}

/// The context of the monolithic template.
pub fn build_monolithic_context(b: Language, spec: &Spec) -> (r: TemplateContext)
    requires
        monolithic_translatable(b, spec@),
    ensures
        r@ == monolithic_context(b, spec@),
{
    let metadata = metadata_context_of(b, &spec.metadata);
    let contracts = Some(ContractsContext { invariants: clone_strings(&spec.contracts.invariants) });
    let verification = Some(verification_context_of(b, &spec.verification));
    match b {
        Language::Rust => {
            let mut raw_structs: Vec<RawStructContext> = Vec::new();
            let mut i: usize = 0;
            while i < spec.structs.len()
                invariant
                    0 <= i <= spec.structs.len(),
                    raw_structs@.len() == i,
                    forall|k: int|
                        0 <= k < i ==> #[trigger] raw_structs@[k]@ == raw_struct_context(
                            spec.structs@[k]@,
                        ),
                decreases spec.structs.len() - i,
            {
                raw_structs.push(raw_struct_context_of(&spec.structs[i]));
                i = i + 1;
            }
            let mut raw_methods: Vec<MethodDef> = Vec::new();
            let mut j: usize = 0;
            while j < spec.methods.len()
                invariant
                    0 <= j <= spec.methods.len(),
                    raw_methods@.len() == j,
                    forall|k: int| 0 <= k < j ==> #[trigger] raw_methods@[k]@ == spec.methods@[k]@,
                decreases spec.methods.len() - j,
            {
                raw_methods.push(spec.methods[j].clone());
                j = j + 1;
            }
            let r = TemplateContext {
                metadata,
                contracts,
                structs: None,
                raw_structs: Some(raw_structs),
                struct_def: None,
                methods: None,
                raw_methods: Some(raw_methods),
                method: None,
                verification,
            };
            assert(r@.raw_structs.unwrap() =~= monolithic_context(b, spec@).raw_structs.unwrap());
            assert(r@.raw_methods.unwrap() =~= monolithic_context(b, spec@).raw_methods.unwrap());
            r
        },
        _ => {
            let mut structs: Vec<StructContext> = Vec::new();
            let mut i: usize = 0;
            while i < spec.structs.len()
                invariant
                    0 <= i <= spec.structs.len(),
                    monolithic_translatable(b, spec@),
                    structs@.len() == i,
                    forall|k: int|
                        0 <= k < i ==> #[trigger] structs@[k]@ == struct_context(
                            b,
                            spec.structs@[k]@,
                            false,
                        ),
                decreases spec.structs.len() - i,
            {
                assert(spec@.structs[i as int] == spec.structs@[i as int]@);
                structs.push(struct_context_of(b, &spec.structs[i], false));
                i = i + 1;
            }
            let mut methods: Vec<MethodContext> = Vec::new();
            let mut j: usize = 0;
            while j < spec.methods.len()
                invariant
                    0 <= j <= spec.methods.len(),
                    monolithic_translatable(b, spec@),
                    methods@.len() == j,
                    forall|k: int|
                        0 <= k < j ==> #[trigger] methods@[k]@ == method_context(
                            b,
                            spec.methods@[k]@,
                        ),
                decreases spec.methods.len() - j,
            {
                assert(spec@.methods[j as int] == spec.methods@[j as int]@);
                methods.push(method_context_of(b, &spec.methods[j]));
                j = j + 1;
            }
            let r = TemplateContext {
                metadata,
                contracts,
                structs: Some(structs),
                raw_structs: None,
                struct_def: None,
                methods: Some(methods),
                raw_methods: None,
                method: None,
                verification,
            };
            assert(r@.structs.unwrap() =~= monolithic_context(b, spec@).structs.unwrap());
            assert(r@.methods.unwrap() =~= monolithic_context(b, spec@).methods.unwrap());
            r
        },
    }
}

/// The context of the class template.
pub fn build_class_context(b: Language, spec: &Spec) -> (r: TemplateContext)
    requires
        class_translatable(b, spec@),
    ensures
        r@ == class_context(b, spec@),
{
    let struct_def = if spec.structs.len() > 0 {
        assert(spec@.structs[0] == spec.structs@[0]@);
        Some(struct_context_of(b, &spec.structs[0], false))
    } else {
        None
    };
    TemplateContext {
        metadata: metadata_context_of(b, &spec.metadata),
        contracts: Some(ContractsContext { invariants: clone_strings(&spec.contracts.invariants) }),
        structs: None,
        raw_structs: None,
        struct_def,
        methods: None,
        raw_methods: None,
        method: None,
        verification: None,
    }
}

/// The context of the file of method `m`.
pub fn build_method_context(b: Language, spec: &Spec, m: &MethodDef) -> (r: TemplateContext)
    requires
        method_translatable(b, m@),
    ensures
        r@ == method_file_context(b, spec@, m@),
{
    let struct_def = if spec.structs.len() > 0 {
        assert(spec@.structs[0] == spec.structs@[0]@);
        Some(struct_context_of(b, &spec.structs[0], true))
    } else {
        None
    };
    let contracts = match b {
        Language::Rust => Some(
            ContractsContext { invariants: clone_strings(&spec.contracts.invariants) },
        ),
        Language::TypeScript => Some(
            ContractsContext { invariants: clone_strings(&spec.contracts.invariants) },
        ),
        _ => None,
    };
    TemplateContext {
        metadata: metadata_context_of(b, &spec.metadata),
        contracts,
        structs: None,
        raw_structs: None,
        struct_def,
        methods: None,
        raw_methods: None,
        method: Some(method_context_of(b, m)),
        verification: Some(verification_context_of(b, &spec.verification)),
    }
}

// ---------------------------------------------------------------------
// Files
// ---------------------------------------------------------------------

/// The extension of the language's source files.
pub open spec fn extension(b: Language) -> Seq<char> {
    match b {
        Language::Rust => "rs"@,
        Language::Python => "py"@,
        Language::TypeScript => "ts"@,
        Language::CSharp => "cs"@,
        Language::Go => "go"@,
    }
}

pub fn extension_of(b: Language) -> (r: &'static str)
    ensures
        r@ == extension(b),
{
    match b {
        Language::Rust => "rs",
        Language::Python => "py",
        Language::TypeScript => "ts",
        Language::CSharp => "cs",
        Language::Go => "go",
    }
}

/// The template for a spec without structs.
pub open spec fn monolithic_template(b: Language) -> Seq<char> {
    match b {
        Language::Rust => "rust.rs.tera"@,
        Language::Python => "python.py.tera"@,
        Language::TypeScript => "typescript.ts.tera"@,
        Language::CSharp => "csharp.cs.tera"@,
        Language::Go => "go.go.tera"@,
    }
}

/// The template of the class file.
pub open spec fn class_template(b: Language) -> Seq<char> {
    match b {
        Language::Rust => "rust/class.rs.tera"@,
        Language::Python => "python/class.py.tera"@,
        Language::TypeScript => "typescript/class.ts.tera"@,
        Language::CSharp => "csharp/class.cs.tera"@,
        Language::Go => "go/class.go.tera"@,
    }
}

/// The template of a method file.
pub open spec fn method_template(b: Language) -> Seq<char> {
    match b {
        Language::Rust => "rust/method.rs.tera"@,
        Language::Python => "python/method.py.tera"@,
        Language::TypeScript => "typescript/method.ts.tera"@,
        Language::CSharp => "csharp/method.cs.tera"@,
        Language::Go => "go/method.go.tera"@,
    }
}

pub fn monolithic_template_of(b: Language) -> (r: &'static str)
    ensures
        r@ == monolithic_template(b),
{
    match b {
        Language::Rust => "rust.rs.tera",
        Language::Python => "python.py.tera",
        Language::TypeScript => "typescript.ts.tera",
        Language::CSharp => "csharp.cs.tera",
        Language::Go => "go.go.tera",
    }
}

pub fn class_template_of(b: Language) -> (r: &'static str)
    ensures
        r@ == class_template(b),
{
    match b {
        Language::Rust => "rust/class.rs.tera",
        Language::Python => "python/class.py.tera",
        Language::TypeScript => "typescript/class.ts.tera",
        Language::CSharp => "csharp/class.cs.tera",
        Language::Go => "go/class.go.tera",
    }
}

pub fn method_template_of(b: Language) -> (r: &'static str)
    ensures
        r@ == method_template(b),
{
    match b {
        Language::Rust => "rust/method.rs.tera",
        Language::Python => "python/method.py.tera",
        Language::TypeScript => "typescript/method.ts.tera",
        Language::CSharp => "csharp/method.cs.tera",
        Language::Go => "go/method.go.tera",
    }
}

/// The file of a spec without structs: `<name>Methods.<ext>` (Rust
/// sanitizes the name).
pub open spec fn monolithic_filename(b: Language, name: Seq<char>) -> Seq<char> {
    match b {
        Language::Rust => sanitized(name) + "Methods.rs"@,
        _ => name + "Methods."@ + extension(b),
    }
}

/// The class file of a struct: `<struct>.<ext>` (sanitized except in C#).
pub open spec fn class_filename(b: Language, struct_name: Seq<char>) -> Seq<char> {
    match b {
        Language::CSharp => struct_name + ".cs"@,
        _ => sanitized(struct_name) + "."@ + extension(b),
    }
}

/// The file of a method: `<struct>_<method>.<ext>`, with the method name
/// in camelCase for TypeScript; C# writes `<struct>.<Method>.cs`.
pub open spec fn method_filename(b: Language, struct_name: Seq<char>, method_name: Seq<char>) -> Seq<char> {
    match b {
        Language::CSharp => struct_name + "."@ + pascal_case(method_name) + ".cs"@,
        Language::TypeScript => sanitized(struct_name) + "_"@ + camel_case(method_name) + ".ts"@,
        _ => sanitized(struct_name) + "_"@ + sanitized(method_name) + "."@ + extension(b),
    }
}

pub fn monolithic_filename_of(b: Language, name: &str) -> (r: String)
    ensures
        r@ == monolithic_filename(b, name@),
{
    match b {
        Language::Rust => concat2(sanitize_filename(name).as_str(), "Methods.rs"),
        _ => concat3(name, "Methods.", extension_of(b)),
    }
}

pub fn class_filename_of(b: Language, struct_name: &str) -> (r: String)
    ensures
        r@ == class_filename(b, struct_name@),
{
    match b {
        Language::CSharp => concat2(struct_name, ".cs"),
        _ => concat3(sanitize_filename(struct_name).as_str(), ".", extension_of(b)),
    }
}

pub fn method_filename_of(b: Language, struct_name: &str, method_name: &str) -> (r: String)
    ensures
        r@ == method_filename(b, struct_name@, method_name@),
{
    match b {
        Language::CSharp => {
            let mut r = concat3(struct_name, ".", to_pascal_case(method_name).as_str());
            r.append(".cs");
            r
        },
        Language::TypeScript => {
            let mut r = concat3(sanitize_filename(struct_name).as_str(), "_", to_camel_case(method_name).as_str());
            r.append(".ts");
            r
        },
        _ => {
            let mut r = concat3(sanitize_filename(struct_name).as_str(), "_", sanitize_filename(method_name).as_str());
            r.append(".");
            r.append(extension_of(b));
            r
        },
    }
}

/// A file to render: its name, its template and the template's context.
pub struct RenderJob {
    pub filename: String,
    pub template: String,
    pub context: TemplateContext,
}

pub struct RenderJobModel {
    pub filename: Seq<char>,
    pub template: Seq<char>,
    pub context: TemplateContextModel,
}

impl View for RenderJob {
    type V = RenderJobModel;

    open spec fn view(&self) -> RenderJobModel {
        RenderJobModel { filename: self.filename@, template: self.template@, context: self.context@ }
    }
}

/// The backend refuses a spec with repeated struct or method names (C#
/// does not check).
pub open spec fn checks_names(b: Language) -> bool {
    !(b is CSharp)
}

/// The files generated from `s`: one monolithic file when there is no
/// struct; otherwise the first struct's class file, then one file per
/// method in order.
pub open spec fn planned(b: Language, s: SpecModel) -> Seq<RenderJobModel> {
    if s.structs.len() == 0 {
        seq![
            RenderJobModel {
                filename: monolithic_filename(b, s.metadata.name),
                template: monolithic_template(b),
                context: monolithic_context(b, s),
            },
        ]
    } else {
        seq![
            RenderJobModel {
                filename: class_filename(b, s.structs[0].name),
                template: class_template(b),
                context: class_context(b, s),
            },
        ] + s.methods.map_values(
            |m: MethodDefModel|
                RenderJobModel {
                    filename: method_filename(b, s.structs[0].name, m.name),
                    template: method_template(b),
                    context: method_file_context(b, s, m),
                },
        )
    }
}

/// Generation stops at the name check before any type is translated.
pub open spec fn refused_by_name_check(b: Language, s: SpecModel) -> bool {
    checks_names(b) && duplicate_name_message(s) is Some
}

/// The files to render for `spec`, in order, after the name check.
pub fn plan_files(b: Language, spec: &Spec) -> (r: Result<Vec<RenderJob>, BackendError>)
    requires
        refused_by_name_check(b, spec@) || plan_translatable(b, spec@),
    ensures
        match r {
            Ok(jobs) => !refused_by_name_check(b, spec@) && jobs@.map_values(|j: RenderJob| j@)
                == planned(b, spec@),
            Err(BackendError::TemplateInit { message }) => checks_names(b)
                && duplicate_name_message(spec@) == Some(message@),
            Err(_) => false,
        },
{
    match b {
        Language::CSharp => {},
        _ => {
            match validate_unique_names(spec) {
                Ok(()) => {},
                Err(e) => return Err(e),
            }
        },
    }
    if spec.structs.len() == 0 {
        let job = RenderJob {
            filename: monolithic_filename_of(b, spec.metadata.name.as_str()),
            template: owned(monolithic_template_of(b)),
            context: build_monolithic_context(b, spec),
        };
        let mut jobs: Vec<RenderJob> = Vec::new();
        jobs.push(job);
        assert(jobs@.map_values(|j: RenderJob| j@) =~= planned(b, spec@));
        return Ok(jobs);
    }
    let s = &spec.structs[0];
    assert(spec@.structs[0] == s@);
    let mut jobs: Vec<RenderJob> = Vec::new();
    jobs.push(
        RenderJob {
            filename: class_filename_of(b, s.name.as_str()),
            template: owned(class_template_of(b)),
            context: build_class_context(b, spec),
        },
    );
    let mut i: usize = 0;
    while i < spec.methods.len()
        invariant
            0 <= i <= spec.methods.len(),
            spec.structs.len() > 0,
            s@ == spec@.structs[0],
            plan_translatable(b, spec@),
            jobs@.len() == i + 1,
            jobs@[0]@ == planned(b, spec@)[0],
            forall|k: int|
                0 <= k < i ==> #[trigger] jobs@[k + 1]@ == planned(b, spec@)[k + 1],
        decreases spec.methods.len() - i,
    {
        let m = &spec.methods[i];
        assert(spec@.methods[i as int] == m@);
        assert(method_translatable(b, spec@.methods[i as int]));
        jobs.push(
            RenderJob {
                filename: method_filename_of(b, s.name.as_str(), m.name.as_str()),
                template: owned(method_template_of(b)),
                context: build_method_context(b, spec, m),
            },
        );
        i = i + 1;
    }
    proof {
        let p = planned(b, spec@);
        assert(p.len() == jobs@.len());
        assert forall|k: int| 0 <= k < p.len() implies #[trigger] jobs@[k]@ == p[k] by {
            if k > 0 {
                assert(jobs@[(k - 1) + 1]@ == p[(k - 1) + 1]);
            }
        }
        assert(jobs@.map_values(|j: RenderJob| j@) =~= p);
    }
    Ok(jobs)
}

/// Whether every field type of `d` translates.
pub fn struct_is_translatable(b: Language, d: &StructDef) -> (r: bool)
    ensures
        r == struct_translatable(b, d@),
{
    if let Language::Rust = b {
        return true;
    }
    let lang = lang_of_exec(b);
    let mut i: usize = 0;
    while i < d.fields.len()
        invariant
            0 <= i <= d.fields.len(),
            !(b is Rust),
            lang == lang_of(b),
            forall|k: int| 0 <= k < i ==> #[trigger] type_translatable(lang, d@.fields[k].field_type),
        decreases d.fields.len() - i,
    {
        assert(d@.fields[i as int] == d.fields@[i as int]@);
        if !is_type_translatable(lang, &d.fields[i].field_type) {
            assert(!type_translatable(lang_of(b), d@.fields[i as int].field_type));
            return false;
        }
        i = i + 1;
    }
    true
}

/// Whether every parameter type and the return type of `m` translate.
pub fn method_is_translatable(b: Language, m: &MethodDef) -> (r: bool)
    ensures
        r == method_translatable(b, m@),
{
    if let Language::Rust = b {
        return true;
    }
    let lang = lang_of_exec(b);
    let mut i: usize = 0;
    while i < m.params.len()
        invariant
            0 <= i <= m.params.len(),
            !(b is Rust),
            lang == lang_of(b),
            forall|k: int| 0 <= k < i ==> #[trigger] type_translatable(lang, m@.params[k].param_type),
        decreases m.params.len() - i,
    {
        assert(m@.params[i as int] == m.params@[i as int]@);
        if !is_type_translatable(lang, &m.params[i].param_type) {
            assert(!type_translatable(lang_of(b), m@.params[i as int].param_type));
            return false;
        }
        i = i + 1;
    }
    match &m.returns {
        Some(r) => is_translatable(lang, r.as_str()),
        None => true,
    }
}

/// Whether every type that `plan_files` translates can be translated.
pub fn plan_is_translatable(b: Language, spec: &Spec) -> (r: bool)
    ensures
        r == plan_translatable(b, spec@),
{
    if let Language::Rust = b {
        return true;
    }
    if spec.structs.len() > 0 {
        let d = &spec.structs[0];
        assert(spec@.structs[0] == d@);
        if !struct_is_translatable(b, d) {
            return false;
        }
    }
    let mut j: usize = 0;
    while j < spec.methods.len()
        invariant
            0 <= j <= spec.methods.len(),
            !(b is Rust),
            spec.structs.len() > 0 ==> struct_translatable(b, spec@.structs[0]),
            forall|k: int| 0 <= k < j ==> #[trigger] method_translatable(b, spec@.methods[k]),
        decreases spec.methods.len() - j,
    {
        let m = &spec.methods[j];
        assert(spec@.methods[j as int] == m@);
        if !method_is_translatable(b, m) {
            assert(!method_translatable(b, spec@.methods[j as int]));
            return false;
        }
        j = j + 1;
    }
    true
}

// ---------------------------------------------------------------------
// Template key names
// ---------------------------------------------------------------------

/// The key under which the language's templates read the type of a field
/// or parameter.
pub open spec fn type_key(b: Language) -> Seq<char> {
    match b {
        Language::Rust => "rust_type"@,
        Language::Python => "python_type"@,
        Language::TypeScript => "ts_type"@,
        Language::CSharp => "csharp_type"@,
        Language::Go => "go_type"@,
    }
}

pub fn type_key_of(b: Language) -> (r: &'static str)
    ensures
        r@ == type_key(b),
{
    match b {
        Language::Rust => "rust_type",
        Language::Python => "python_type",
        Language::TypeScript => "ts_type",
        Language::CSharp => "csharp_type",
        Language::Go => "go_type",
    }
}

/// The key under which the templates read whether a method reports errors
/// (Python raises, TypeScript and C# throw, Go returns an error); Rust's
/// templates get no such key.
pub open spec fn raises_key(b: Language) -> Option<Seq<char>> {
    match b {
        Language::Rust => None,
        Language::Python => Some("raises_exception"@),
        Language::TypeScript => Some("throws_exception"@),
        Language::CSharp => Some("throws_exception"@),
        Language::Go => Some("returns_error"@),
    }
}

pub fn raises_key_of(b: Language) -> (r: Option<&'static str>)
    ensures
        match r {
            Some(k) => raises_key(b) == Some(k@),
            None => raises_key(b) is None,
        },
{
    match b {
        Language::Rust => None,
        Language::Python => Some("raises_exception"),
        Language::TypeScript => Some("throws_exception"),
        Language::CSharp => Some("throws_exception"),
        Language::Go => Some("returns_error"),
    }
}

/// The keys under which the templates read a generic parameter's bound:
/// `constraints` in TypeScript, both `constraint` and `bound` in Go,
/// `bounds` elsewhere.
pub open spec fn bound_keys(b: Language) -> Seq<Seq<char>> {
    match b {
        Language::TypeScript => seq!["constraints"@],
        Language::Go => seq!["constraint"@, "bound"@],
        _ => seq!["bounds"@],
    }
}

pub fn bound_keys_of(b: Language) -> (r: Vec<&'static str>)
    ensures
        r@.map_values(|k: &str| k@) == bound_keys(b),
{
    let mut r: Vec<&'static str> = Vec::new();
    match b {
        Language::TypeScript => r.push("constraints"),
        Language::Go => {
            r.push("constraint");
            r.push("bound");
        },
        _ => r.push("bounds"),
    }
    assert(r@.map_values(|k: &str| k@) =~= bound_keys(b));
    r
}

// ---------------------------------------------------------------------
// Laws
// ---------------------------------------------------------------------

/// The files generated for a spec: one file from the monolithic template
/// when the spec has no struct; otherwise the first struct's class file,
/// then one file per method, in the methods' order, each given that method.
pub proof fn law_one_file_per_method(b: Language, s: SpecModel)
    ensures
        s.structs.len() == 0 ==> planned(b, s).len() == 1 && planned(b, s)[0].template
            == monolithic_template(b) && planned(b, s)[0].filename == monolithic_filename(
            b,
            s.metadata.name,
        ),
        s.structs.len() > 0 ==> planned(b, s).len() == s.methods.len() + 1 && planned(b, s)[0].template
            == class_template(b) && planned(b, s)[0].filename == class_filename(b, s.structs[0].name),
        s.structs.len() > 0 ==> forall|k: int|
            #![trigger s.methods[k]]
            0 <= k < s.methods.len() ==> planned(b, s)[k + 1].template == method_template(b)
                && planned(b, s)[k + 1].filename == method_filename(
                b,
                s.structs[0].name,
                s.methods[k].name,
            ) && planned(b, s)[k + 1].context.method == Some(method_context(b, s.methods[k])),
{
}

/// The names the generated code uses. Struct names are kept. Fields and
/// methods are PascalCase in C# and Go, camelCase in TypeScript, and kept
/// in Rust and Python. Parameters are camelCase except in Rust and Python,
/// which keep them.
pub proof fn law_naming_conventions(b: Language, s: SpecModel, i: int, k: int, j: int)
    requires
        s.structs.len() > 0,
    ensures
        planned(b, s)[0].context.struct_def matches Some(d) && d.name == s.structs[0].name,
        0 <= i < s.structs[0].fields.len() ==> {
            let got = planned(b, s)[0].context.struct_def.unwrap().fields[i].name;
            let n = s.structs[0].fields[i].name;
            &&& (b is CSharp || b is Go) ==> got == pascal_case(n)
            &&& b is TypeScript ==> got == camel_case(n)
            &&& (b is Rust || b is Python) ==> got == n
        },
        0 <= k < s.methods.len() ==> {
            let got = planned(b, s)[k + 1].context.method.unwrap().name;
            let n = s.methods[k].name;
            &&& (b is CSharp || b is Go) ==> got == pascal_case(n)
            &&& b is TypeScript ==> got == camel_case(n)
            &&& (b is Rust || b is Python) ==> got == n
        },
        0 <= k < s.methods.len() && 0 <= j < s.methods[k].params.len() ==> {
            let got = planned(b, s)[k + 1].context.method.unwrap().params[j].name;
            let n = s.methods[k].params[j].name;
            &&& (b is Rust || b is Python) ==> got == n
            &&& !(b is Rust || b is Python) ==> got == camel_case(n)
        },
{
    if 0 <= k < s.methods.len() {
        law_one_file_per_method(b, s);
        assert(planned(b, s)[k + 1].context.method == Some(method_context(b, s.methods[k])));
    }
}

/// An `assert_eq!(l, r)` test assertion becomes an equality check of its
/// two arguments in every language: `assert l == r` in Python,
/// `expect(l).toBe(r)` in TypeScript, `Assert.AreEqual(l, r)` in C#, and in
/// Go a test failure when `l != r`; Rust keeps the assertion as written.
pub proof fn law_assert_eq_translation(b: Language, a: Seq<char>, l: Seq<char>, r: Seq<char>)
    requires
        assert_eq_args(a) == Some((l, r)),
    ensures
        b is Rust ==> assertion_text(b, a) == a,
        b is Python ==> assertion_text(b, a) == "assert "@ + l + " == "@ + r,
        b is TypeScript ==> assertion_text(b, a) == "expect("@ + l + ").toBe("@ + r + ")"@,
        b is CSharp ==> assertion_text(b, a) == "Assert.AreEqual("@ + l + ", "@ + r + ")"@,
        b is Go ==> assertion_text(b, a) == "if "@ + l + " != "@ + r
            + " { t.Errorf(\"got %v, want %v\", "@ + l + ", "@ + r + ") }"@,
{
    reveal_strlit("assert_eq!(");
    reveal_strlit("assert!(");
    assert(has_prefix(a, "assert_eq!("@));
    assert("assert_eq!("@.len() == 11 && "assert_eq!("@[6] == '_');
    assert(a.subrange(0, 11) == "assert_eq!("@);
    assert(a.subrange(0, 11)[6] == a[6]);
    assert(a[6] == '_');
    assert(!has_prefix(a, "assert!("@)) by {
        if has_prefix(a, "assert!("@) {
            assert(a.subrange(0, 8)[6] == a[6]);
        }
    }
}

/// An `assert!(e)` test assertion becomes a truth check of `e` in every
/// language: `assert e` in Python, `expect(e).toBe(true)` in TypeScript,
/// `Assert.IsTrue(e)` in C# (each with `e` trimmed), and in Go a test
/// failure when `!(e)`; Rust keeps the assertion as written.
pub proof fn law_assert_bang_translation(b: Language, a: Seq<char>, e: Seq<char>)
    requires
        assert_bang_inner(a) == Some(e),
    ensures
        b is Rust ==> assertion_text(b, a) == a,
        b is Python ==> assertion_text(b, a) == "assert "@ + trim(e, TrimSet::Whitespace),
        b is TypeScript ==> assertion_text(b, a) == "expect("@ + trim(e, TrimSet::Whitespace)
            + ").toBe(true)"@,
        b is CSharp ==> assertion_text(b, a) == "Assert.IsTrue("@ + trim(e, TrimSet::Whitespace)
            + ")"@,
        b is Go ==> assertion_text(b, a) == "if !("@ + e + ") { t.Errorf(\"assertion failed: "@
            + e + "\") }"@,
{
}

/// How a generic parameter's bound is written: Rust joins the constraints
/// with ` + `, Python with `, `, TypeScript with ` & `; C# writes
/// `where T : a, b` (nothing without constraints); Go gives its constraint
/// (`any`, `comparable` or `constraints.Ordered`) on the type, and nothing
/// in a method file.
pub proof fn law_generic_bounds(b: Language, g: GenericParamModel, in_method: bool)
    ensures
        b is Rust ==> generic_context(b, g, in_method).bound == join(g.constraints, " + "@),
        b is Python ==> generic_context(b, g, in_method).bound == join(g.constraints, ", "@),
        b is TypeScript ==> generic_context(b, g, in_method).bound == join(g.constraints, " & "@),
        b is CSharp && g.constraints.len() == 0 ==> generic_context(b, g, in_method).bound
            == Seq::<char>::empty(),
        b is CSharp && g.constraints.len() > 0 ==> generic_context(b, g, in_method).bound
            == "where "@ + g.name + " : "@ + join(g.constraints, ", "@),
        b is Go && in_method ==> generic_context(b, g, in_method).bound == Seq::<char>::empty(),
        b is Go && !in_method ==> generic_context(b, g, in_method).bound == go_constraint(
            g.constraints,
        ),
        generic_context(b, g, in_method).name == g.name,
{
}

/// A method reports errors (raises, throws, or in Go returns an error)
/// exactly when its declared return type is a `Result<..>`, in every
/// language but Rust; its return type is written in the target language
/// (Rust keeps it as declared).
pub proof fn law_method_errors_and_return(b: Language, m: MethodDefModel)
    ensures
        method_context(b, m).raises <==> (!(b is Rust) && (m.returns matches Some(r) && has_prefix(
            r,
            "Result<"@,
        ))),
        m.returns is None ==> method_context(b, m).returns is None,
        (b is Rust && m.returns is Some) ==> method_context(b, m).returns == m.returns,
        (!(b is Rust) && m.returns is Some) ==> method_context(b, m).returns == Some(
            translated(lang_of(b), m.returns.unwrap()),
        ),
{
}

/// Every template receives the spec's test cases with their names, setup
/// and actions unchanged and each assertion translated into the language's
/// test syntax; Go templates alone receive a package name, the spec's name
/// with only alphanumerics and `_` kept, lowercased.
pub proof fn law_test_cases_and_package(b: Language, s: SpecModel, i: int, j: int)
    requires
        0 <= i < s.verification.test_cases.len(),
    ensures
        ({
            let t = s.verification.test_cases[i];
            let c = verification_context(b, s.verification).test_cases[i];
            &&& verification_context(b, s.verification).test_cases.len()
                == s.verification.test_cases.len()
            &&& c.name == t.name && c.setup == t.setup && c.actions == t.actions
            &&& c.assertions.len() == t.assertions.len()
            &&& 0 <= j < t.assertions.len() ==> c.assertions[j] == assertion_text(
                b,
                t.assertions[j],
            )
        }),
        (b is Go) == (metadata_context(b, s.metadata).package_name is Some),
        b is Go ==> metadata_context(b, s.metadata).package_name == Some(
            unicode_lowercase(package_chars(s.metadata.name)),
        ),
{
}

} // verus!
