//! The language-agnostic AST of a specification, and its mathematical model.
//!
//! Every executable type has a view (`@`) into a model type built from
//! `Seq<char>`, `Seq`, `Option` and other models; the contracts of the
//! library speak of these models.

use vstd::prelude::*;
use crate::text::{views, opt_view, clone_strings, clone_opt, push_char};

verus! {

// ---------------------------------------------------------------------
// Types of a field or parameter
// ---------------------------------------------------------------------

/// A type, written either as one string (`"Vec<T>"`) or as a base with
/// parameters (`{ base: "Vec", params: ["T"] }`).
pub enum Type {
    Simple(String),
    Parameterized { base: String, params: Vec<Type> },
}

/// The model of a [`Type`].
pub enum TypeModel {
    Simple(Seq<char>),
    Parameterized { base: Seq<char>, params: Seq<TypeModel> },
}

pub open spec fn type_model(t: Type) -> TypeModel
    decreases t,
{
    match t {
        Type::Simple(s) => TypeModel::Simple(s@),
        Type::Parameterized { base, params } => TypeModel::Parameterized {
            base: base@,
            params: type_models(params@),
        },
    }
}

pub open spec fn type_models(ts: Seq<Type>) -> Seq<TypeModel>
    decreases ts,
{
    if ts.len() == 0 {
        Seq::empty()
    } else {
        type_models(ts.subrange(0, ts.len() - 1)).push(type_model(ts[ts.len() - 1]))
    }
}

impl View for Type {
    type V = TypeModel;

    open spec fn view(&self) -> TypeModel {
        type_model(*self)
    }
}

/// `type_models` is the element-wise model.
pub proof fn lemma_type_models(ts: Seq<Type>)
    ensures
        type_models(ts).len() == ts.len(),
        forall|i: int| 0 <= i < ts.len() ==> #[trigger] type_models(ts)[i] == type_model(ts[i]),
    decreases ts.len(),
{
    if ts.len() > 0 {
        lemma_type_models(ts.subrange(0, ts.len() - 1));
    }
}

/// The text of a type: a simple type as written, a parameterized one as
/// `base<p1, p2, ...>`.
pub open spec fn display(t: TypeModel) -> Seq<char>
    decreases t,
{
    match t {
        TypeModel::Simple(s) => s,
        TypeModel::Parameterized { base, params } => base + seq!['<'] + display_list(params)
            + seq!['>'],
    }
}

/// The texts of `ts` joined by `", "`.
pub open spec fn display_list(ts: Seq<TypeModel>) -> Seq<char>
    decreases ts,
{
    if ts.len() == 0 {
        Seq::empty()
    } else if ts.len() == 1 {
        display(ts[0])
    } else {
        display_list(ts.subrange(0, ts.len() - 1)) + seq![',', ' '] + display(ts[ts.len() - 1])
    }
}

impl Type {
    /// The text of the type: `base<p1, p2>` for a parameterized one.
    #[verifier::loop_isolation(false)]
    pub fn to_string(&self) -> (r: String)
        ensures
            r@ == display(self@),
        decreases self,
    {
        match self {
            Type::Simple(s) => s.clone(),
            Type::Parameterized { base, params } => {
                proof {
                    lemma_type_models(params@);
                }
                let mut r = base.clone();
                push_char(&mut r, '<');
                let ghost ms = type_models(params@);
                let mut i: usize = 0;
                while i < params.len()
                    invariant
                        0 <= i <= params.len(),
                        ms == type_models(params@),
                        ms.len() == params@.len(),
                        forall|k: int| 0 <= k < params@.len() ==> ms[k] == type_model(params@[k]),
                        r@ == base@ + seq!['<'] + display_list(ms.subrange(0, i as int)),
                    decreases params.len() - i,
                {
                    let ghost before = r@;
                    if i > 0 {
                        push_char(&mut r, ',');
                        push_char(&mut r, ' ');
                    }
                    let p = params[i].to_string();
                    r.append(p.as_str());
                    proof {
                        let sub = ms.subrange(0, i + 1);
                        assert(sub.subrange(0, sub.len() - 1) =~= ms.subrange(0, i as int));
                        assert(sub[sub.len() - 1] == ms[i as int]);
                        if i == 0 {
                            assert(display_list(sub) == display(ms[0]));
                        }
                        assert(r@ =~= base@ + seq!['<'] + display_list(sub));
                    }
                    i = i + 1;
                }
                push_char(&mut r, '>');
                assert(ms.subrange(0, ms.len() as int) =~= ms);
                assert(r@ =~= display(self@));
                r
            },
        }
    }
}

impl Clone for Type {
    #[verifier::loop_isolation(false)]
    fn clone(&self) -> (r: Self)
        ensures
            r@ == self@,
        decreases self,
    {
        match self {
            Type::Simple(s) => Type::Simple(s.clone()),
            Type::Parameterized { base, params } => {
                let mut ps: Vec<Type> = Vec::new();
                let mut i: usize = 0;
                while i < params.len()
                    invariant
                        0 <= i <= params.len(),
                        ps@.len() == i,
                        forall|k: int| 0 <= k < i ==> ps@[k]@ == params@[k]@,
                    decreases params.len() - i,
                {
                    let c = params[i].clone();
                    ps.push(c);
                    i = i + 1;
                }
                proof {
                    lemma_type_models(ps@);
                    lemma_type_models(params@);
                    assert(type_models(ps@) =~= type_models(params@));
                }
                Type::Parameterized { base: base.clone(), params: ps }
            },
        }
    }
}

impl Default for Type {
    /// The empty simple type.
    fn default() -> (r: Self)
        ensures
            r@ == TypeModel::Simple(Seq::empty()),
    {
        Type::Simple(String::new())
    }
}

// ---------------------------------------------------------------------
// Specification
// ---------------------------------------------------------------------

/// A whole specification.
pub struct Spec {
    pub spec_version: String,
    pub metadata: Metadata,
    pub contracts: Contracts,
    pub structs: Vec<StructDef>,
    pub methods: Vec<MethodDef>,
    pub verification: Verification,
}

/// Name, category, complexity and tags of a specification.
pub struct Metadata {
    pub name: String,
    pub category: String,
    pub complexity: Complexity,
    pub tags: Vec<String>,
}

/// Big-O annotations for time and space.
pub struct Complexity {
    pub time: Option<String>,
    pub space: Option<String>,
}

/// Invariants that hold for every instance.
pub struct Contracts {
    pub invariants: Vec<String>,
}

/// A data structure: name, generic parameters and fields.
pub struct StructDef {
    pub name: String,
    pub generics: Vec<GenericParam>,
    pub fields: Vec<FieldDef>,
}

/// A generic parameter and its constraints.
pub struct GenericParam {
    pub name: String,
    pub constraints: Vec<String>,
}

/// A named, typed field.
pub struct FieldDef {
    pub name: String,
    pub field_type: Type,
}

/// A method signature with its contract.
pub struct MethodDef {
    pub name: String,
    pub params: Vec<ParamDef>,
    pub returns: Option<String>,
    pub preconditions: Vec<String>,
    pub postconditions: Vec<String>,
    pub injected_assertions: Vec<String>,
}

/// A named, typed parameter.
pub struct ParamDef {
    pub name: String,
    pub param_type: Type,
}

/// The test cases of a specification.
pub struct Verification {
    pub test_cases: Vec<TestCase>,
}

/// A test scenario: setup, actions and assertions.
pub struct TestCase {
    pub name: String,
    pub setup: Option<String>,
    pub actions: Vec<String>,
    pub assertions: Vec<String>,
}

// ---------------------------------------------------------------------
// Models
// ---------------------------------------------------------------------

pub struct SpecModel {
    pub spec_version: Seq<char>,
    pub metadata: MetadataModel,
    pub contracts: ContractsModel,
    pub structs: Seq<StructDefModel>,
    pub methods: Seq<MethodDefModel>,
    pub verification: VerificationModel,
}

pub struct MetadataModel {
    pub name: Seq<char>,
    pub category: Seq<char>,
    pub complexity: ComplexityModel,
    pub tags: Seq<Seq<char>>,
}

pub struct ComplexityModel {
    pub time: Option<Seq<char>>,
    pub space: Option<Seq<char>>,
}

pub struct ContractsModel {
    pub invariants: Seq<Seq<char>>,
}

pub struct StructDefModel {
    pub name: Seq<char>,
    pub generics: Seq<GenericParamModel>,
    pub fields: Seq<FieldDefModel>,
}

pub struct GenericParamModel {
    pub name: Seq<char>,
    pub constraints: Seq<Seq<char>>,
}

pub struct FieldDefModel {
    pub name: Seq<char>,
    pub field_type: TypeModel,
}

pub struct MethodDefModel {
    pub name: Seq<char>,
    pub params: Seq<ParamDefModel>,
    pub returns: Option<Seq<char>>,
    pub preconditions: Seq<Seq<char>>,
    pub postconditions: Seq<Seq<char>>,
    pub injected_assertions: Seq<Seq<char>>,
}

pub struct ParamDefModel {
    pub name: Seq<char>,
    pub param_type: TypeModel,
}

pub struct VerificationModel {
    pub test_cases: Seq<TestCaseModel>,
}

pub struct TestCaseModel {
    pub name: Seq<char>,
    pub setup: Option<Seq<char>>,
    pub actions: Seq<Seq<char>>,
    pub assertions: Seq<Seq<char>>,
}

impl View for Spec {
    type V = SpecModel;

    open spec fn view(&self) -> SpecModel {
        SpecModel {
            spec_version: self.spec_version@,
            metadata: self.metadata@,
            contracts: self.contracts@,
            structs: self.structs@.map_values(|s: StructDef| s@),
            methods: self.methods@.map_values(|m: MethodDef| m@),
            verification: self.verification@,
        }
    }
}

impl View for Metadata {
    type V = MetadataModel;

    open spec fn view(&self) -> MetadataModel {
        MetadataModel {
            name: self.name@,
            category: self.category@,
            complexity: self.complexity@,
            tags: views(self.tags@),
        }
    }
}

impl View for Complexity {
    type V = ComplexityModel;

    open spec fn view(&self) -> ComplexityModel {
        ComplexityModel { time: opt_view(self.time), space: opt_view(self.space) }
    }
}

impl View for Contracts {
    type V = ContractsModel;

    open spec fn view(&self) -> ContractsModel {
        ContractsModel { invariants: views(self.invariants@) }
    }
}

impl View for StructDef {
    type V = StructDefModel;

    open spec fn view(&self) -> StructDefModel {
        StructDefModel {
            name: self.name@,
            generics: self.generics@.map_values(|g: GenericParam| g@),
            fields: self.fields@.map_values(|f: FieldDef| f@),
        }
    }
}

impl View for GenericParam {
    type V = GenericParamModel;

    open spec fn view(&self) -> GenericParamModel {
        GenericParamModel { name: self.name@, constraints: views(self.constraints@) }
    }
}

impl View for FieldDef {
    type V = FieldDefModel;

    open spec fn view(&self) -> FieldDefModel {
        FieldDefModel { name: self.name@, field_type: self.field_type@ }
    }
}

impl View for MethodDef {
    type V = MethodDefModel;

    open spec fn view(&self) -> MethodDefModel {
        MethodDefModel {
            name: self.name@,
            params: self.params@.map_values(|p: ParamDef| p@),
            returns: opt_view(self.returns),
            preconditions: views(self.preconditions@),
            postconditions: views(self.postconditions@),
            injected_assertions: views(self.injected_assertions@),
        }
    }
}

impl View for ParamDef {
    type V = ParamDefModel;

    open spec fn view(&self) -> ParamDefModel {
        ParamDefModel { name: self.name@, param_type: self.param_type@ }
    }
}

impl View for Verification {
    type V = VerificationModel;

    open spec fn view(&self) -> VerificationModel {
        VerificationModel { test_cases: self.test_cases@.map_values(|t: TestCase| t@) }
    }
}

impl View for TestCase {
    type V = TestCaseModel;

    open spec fn view(&self) -> TestCaseModel {
        TestCaseModel {
            name: self.name@,
            setup: opt_view(self.setup),
            actions: views(self.actions@),
            assertions: views(self.assertions@),
        }
    }
}

// ---------------------------------------------------------------------
// Copies
// ---------------------------------------------------------------------

impl Clone for Complexity {
    fn clone(&self) -> (r: Self)
        ensures
            r@ == self@,
    {
        Complexity { time: clone_opt(&self.time), space: clone_opt(&self.space) }
    }
}

impl Clone for Metadata {
    fn clone(&self) -> (r: Self)
        ensures
            r@ == self@,
    {
        let tags = clone_strings(&self.tags);
        Metadata {
            name: self.name.clone(),
            category: self.category.clone(),
            complexity: self.complexity.clone(),
            tags,
        }
    }
}

impl Clone for Contracts {
    fn clone(&self) -> (r: Self)
        ensures
            r@ == self@,
    {
        Contracts { invariants: clone_strings(&self.invariants) }
    }
}

impl Clone for GenericParam {
    fn clone(&self) -> (r: Self)
        ensures
            r@ == self@,
    {
        GenericParam { name: self.name.clone(), constraints: clone_strings(&self.constraints) }
    }
}

impl Clone for FieldDef {
    fn clone(&self) -> (r: Self)
        ensures
            r@ == self@,
    {
        FieldDef { name: self.name.clone(), field_type: self.field_type.clone() }
    }
}

impl Clone for ParamDef {
    fn clone(&self) -> (r: Self)
        ensures
            r@ == self@,
    {
        ParamDef { name: self.name.clone(), param_type: self.param_type.clone() }
    }
}

impl Clone for TestCase {
    fn clone(&self) -> (r: Self)
        ensures
            r@ == self@,
    {
        TestCase {
            name: self.name.clone(),
            setup: clone_opt(&self.setup),
            actions: clone_strings(&self.actions),
            assertions: clone_strings(&self.assertions),
        }
    }
}

impl Clone for StructDef {
    fn clone(&self) -> (r: Self)
        ensures
            r@ == self@,
    {
        let mut generics: Vec<GenericParam> = Vec::new();
        let mut i: usize = 0;
        while i < self.generics.len()
            invariant
                0 <= i <= self.generics.len(),
                generics@.len() == i,
                forall|k: int| 0 <= k < i ==> generics@[k]@ == self.generics@[k]@,
            decreases self.generics.len() - i,
        {
            generics.push(self.generics[i].clone());
            i = i + 1;
        }
        let mut fields: Vec<FieldDef> = Vec::new();
        let mut j: usize = 0;
        while j < self.fields.len()
            invariant
                0 <= j <= self.fields.len(),
                fields@.len() == j,
                forall|k: int| 0 <= k < j ==> fields@[k]@ == self.fields@[k]@,
            decreases self.fields.len() - j,
        {
            fields.push(self.fields[j].clone());
            j = j + 1;
        }
        let r = StructDef { name: self.name.clone(), generics, fields };
        assert(r@.generics =~= self@.generics);
        assert(r@.fields =~= self@.fields);
        r
    }
}

impl Clone for MethodDef {
    fn clone(&self) -> (r: Self)
        ensures
            r@ == self@,
    {
        let mut params: Vec<ParamDef> = Vec::new();
        let mut i: usize = 0;
        while i < self.params.len()
            invariant
                0 <= i <= self.params.len(),
                params@.len() == i,
                forall|k: int| 0 <= k < i ==> params@[k]@ == self.params@[k]@,
            decreases self.params.len() - i,
        {
            params.push(self.params[i].clone());
            i = i + 1;
        }
        let r = MethodDef {
            name: self.name.clone(),
            params,
            returns: clone_opt(&self.returns),
            preconditions: clone_strings(&self.preconditions),
            postconditions: clone_strings(&self.postconditions),
            injected_assertions: clone_strings(&self.injected_assertions),
        };
        assert(r@.params =~= self@.params);
        r
    }
}

impl Clone for Verification {
    fn clone(&self) -> (r: Self)
        ensures
            r@ == self@,
    {
        let mut test_cases: Vec<TestCase> = Vec::new();
        let mut i: usize = 0;
        while i < self.test_cases.len()
            invariant
                0 <= i <= self.test_cases.len(),
                test_cases@.len() == i,
                forall|k: int| 0 <= k < i ==> test_cases@[k]@ == self.test_cases@[k]@,
            decreases self.test_cases.len() - i,
        {
            test_cases.push(self.test_cases[i].clone());
            i = i + 1;
        }
        let r = Verification { test_cases };
        assert(r@.test_cases =~= self@.test_cases);
        r
    }
}

impl Clone for Spec {
    fn clone(&self) -> (r: Self)
        ensures
            r@ == self@,
    {
        let mut structs: Vec<StructDef> = Vec::new();
        let mut i: usize = 0;
        while i < self.structs.len()
            invariant
                0 <= i <= self.structs.len(),
                structs@.len() == i,
                forall|k: int| 0 <= k < i ==> structs@[k]@ == self.structs@[k]@,
            decreases self.structs.len() - i,
        {
            structs.push(self.structs[i].clone());
            i = i + 1;
        }
        let mut methods: Vec<MethodDef> = Vec::new();
        let mut j: usize = 0;
        while j < self.methods.len()
            invariant
                0 <= j <= self.methods.len(),
                methods@.len() == j,
                forall|k: int| 0 <= k < j ==> methods@[k]@ == self.methods@[k]@,
            decreases self.methods.len() - j,
        {
            methods.push(self.methods[j].clone());
            j = j + 1;
        }
        let r = Spec {
            spec_version: self.spec_version.clone(),
            metadata: self.metadata.clone(),
            contracts: self.contracts.clone(),
            structs,
            methods,
            verification: self.verification.clone(),
        };
        assert(r@.structs =~= self@.structs);
        assert(r@.methods =~= self@.methods);
        r
    }
}

// ---------------------------------------------------------------------
// Defaults: empty strings, empty lists, absent options
// ---------------------------------------------------------------------

impl Default for Complexity {
    fn default() -> (r: Self)
        ensures
            r@ == (ComplexityModel { time: None, space: None }),
    {
        Complexity { time: None, space: None }
    }
}

impl Default for Metadata {
    fn default() -> (r: Self)
        ensures
            r@.name.len() == 0,
            r@.category.len() == 0,
            r@.complexity == (ComplexityModel { time: None, space: None }),
            r@.tags.len() == 0,
    {
        Metadata {
            name: String::new(),
            category: String::new(),
            complexity: Complexity::default(),
            tags: Vec::new(),
        }
    }
}

impl Default for Contracts {
    fn default() -> (r: Self)
        ensures
            r@.invariants.len() == 0,
    {
        Contracts { invariants: Vec::new() }
    }
}

impl Default for StructDef {
    fn default() -> (r: Self)
        ensures
            r@.name.len() == 0,
            r@.generics.len() == 0,
            r@.fields.len() == 0,
    {
        StructDef { name: String::new(), generics: Vec::new(), fields: Vec::new() }
    }
}

impl Default for GenericParam {
    fn default() -> (r: Self)
        ensures
            r@.name.len() == 0,
            r@.constraints.len() == 0,
    {
        GenericParam { name: String::new(), constraints: Vec::new() }
    }
}

impl Default for FieldDef {
    fn default() -> (r: Self)
        ensures
            r@.name.len() == 0,
            r@.field_type == TypeModel::Simple(Seq::empty()),
    {
        FieldDef { name: String::new(), field_type: Type::default() }
    }
}

impl Default for ParamDef {
    fn default() -> (r: Self)
        ensures
            r@.name.len() == 0,
            r@.param_type == TypeModel::Simple(Seq::empty()),
    {
        ParamDef { name: String::new(), param_type: Type::default() }
    }
}

impl Default for MethodDef {
    fn default() -> (r: Self)
        ensures
            r@.name.len() == 0,
            r@.params.len() == 0,
            r@.returns.is_none(),
            r@.preconditions.len() == 0,
            r@.postconditions.len() == 0,
            r@.injected_assertions.len() == 0,
    {
        MethodDef {
            name: String::new(),
            params: Vec::new(),
            returns: None,
            preconditions: Vec::new(),
            postconditions: Vec::new(),
            injected_assertions: Vec::new(),
        }
    }
}

impl Default for Verification {
    fn default() -> (r: Self)
        ensures
            r@.test_cases.len() == 0,
    {
        Verification { test_cases: Vec::new() }
    }
}

impl Default for TestCase {
    fn default() -> (r: Self)
        ensures
            r@.name.len() == 0,
            r@.setup.is_none(),
            r@.actions.len() == 0,
            r@.assertions.len() == 0,
    {
        TestCase {
            name: String::new(),
            setup: None,
            actions: Vec::new(),
            assertions: Vec::new(),
        }
    }
}

impl Default for Spec {
    fn default() -> (r: Self)
        ensures
            r@.spec_version.len() == 0,
            r@.metadata.name.len() == 0,
            r@.metadata.category.len() == 0,
            r@.metadata.complexity == (ComplexityModel { time: None, space: None }),
            r@.metadata.tags.len() == 0,
            r@.contracts.invariants.len() == 0,
            r@.structs.len() == 0,
            r@.methods.len() == 0,
            r@.verification.test_cases.len() == 0,
    {
        Spec {
            spec_version: String::new(),
            metadata: Metadata::default(),
            contracts: Contracts::default(),
            structs: Vec::new(),
            methods: Vec::new(),
            verification: Verification::default(),
        }
    }
}

} // verus!
