//! The data handed to a code template: metadata, contracts, structs,
//! methods and test cases, already in the target language's names and
//! types.

use vstd::prelude::*;
use crate::ast::{
    ComplexityModel, ContractsModel, TestCaseModel, VerificationModel, FieldDef, FieldDefModel,
    MethodDef, MethodDefModel,
};
use crate::text::{views, opt_view};

verus! {

/// Template context carrying spec name and complexity (and, for Go, the
/// package name).
pub struct MetadataContext {
    pub name: String,
    pub complexity: ComplexityContext,
    pub package_name: Option<String>,
}

/// Template context for Big-O complexity annotations.
pub struct ComplexityContext {
    pub time: Option<String>,
    pub space: Option<String>,
}

/// Template context for invariants.
pub struct ContractsContext {
    pub invariants: Vec<String>,
}

/// Template context for test case collections.
pub struct VerificationContext {
    pub test_cases: Vec<TestContext>,
}

/// Template context for a single test scenario.
pub struct TestContext {
    pub name: String,
    pub setup: Option<String>,
    pub actions: Vec<String>,
    pub assertions: Vec<String>,
}

/// A generic parameter with its bound written for the target language.
pub struct GenericContext {
    pub name: String,
    pub bound: String,
}

/// A field or parameter with its name and type written for the target
/// language.
pub struct FieldContext {
    pub name: String,
    pub type_text: String,
}

/// A struct with its generics and fields written for the target language.
pub struct StructContext {
    pub name: String,
    pub generics: Vec<GenericContext>,
    pub fields: Vec<FieldContext>,
}

/// A struct whose fields keep their spec types.
pub struct RawStructContext {
    pub name: String,
    pub generics: Vec<GenericContext>,
    pub fields: Vec<FieldDef>,
}

/// A method written for the target language: name, parameters, return
/// type, whether it reports errors by raising (or, in Go, by a returned
/// error), and its conditions.
pub struct MethodContext {
    pub name: String,
    pub params: Vec<FieldContext>,
    pub returns: Option<String>,
    pub raises: bool,
    pub preconditions: Vec<String>,
    pub postconditions: Vec<String>,
    pub injected_assertions: Vec<String>,
}

/// Everything a template receives; an absent section is not given to it.
pub struct TemplateContext {
    pub metadata: MetadataContext,
    pub contracts: Option<ContractsContext>,
    pub structs: Option<Vec<StructContext>>,
    pub raw_structs: Option<Vec<RawStructContext>>,
    pub struct_def: Option<StructContext>,
    pub methods: Option<Vec<MethodContext>>,
    pub raw_methods: Option<Vec<MethodDef>>,
    pub method: Option<MethodContext>,
    pub verification: Option<VerificationContext>,
}

// ---------------------------------------------------------------------
// Models
// ---------------------------------------------------------------------

pub struct MetadataContextModel {
    pub name: Seq<char>,
    pub complexity: ComplexityModel,
    pub package_name: Option<Seq<char>>,
}

pub struct GenericContextModel {
    pub name: Seq<char>,
    pub bound: Seq<char>,
}

pub struct FieldContextModel {
    pub name: Seq<char>,
    pub type_text: Seq<char>,
}

pub struct StructContextModel {
    pub name: Seq<char>,
    pub generics: Seq<GenericContextModel>,
    pub fields: Seq<FieldContextModel>,
}

pub struct RawStructContextModel {
    pub name: Seq<char>,
    pub generics: Seq<GenericContextModel>,
    pub fields: Seq<FieldDefModel>,
}

pub struct MethodContextModel {
    pub name: Seq<char>,
    pub params: Seq<FieldContextModel>,
    pub returns: Option<Seq<char>>,
    pub raises: bool,
    pub preconditions: Seq<Seq<char>>,
    pub postconditions: Seq<Seq<char>>,
    pub injected_assertions: Seq<Seq<char>>,
}

pub struct TemplateContextModel {
    pub metadata: MetadataContextModel,
    pub contracts: Option<ContractsModel>,
    pub structs: Option<Seq<StructContextModel>>,
    pub raw_structs: Option<Seq<RawStructContextModel>>,
    pub struct_def: Option<StructContextModel>,
    pub methods: Option<Seq<MethodContextModel>>,
    pub raw_methods: Option<Seq<MethodDefModel>>,
    pub method: Option<MethodContextModel>,
    pub verification: Option<VerificationModel>,
}

impl View for ComplexityContext {
    type V = ComplexityModel;

    open spec fn view(&self) -> ComplexityModel {
        ComplexityModel { time: opt_view(self.time), space: opt_view(self.space) }
    }
}

impl View for MetadataContext {
    type V = MetadataContextModel;

    open spec fn view(&self) -> MetadataContextModel {
        MetadataContextModel {
            name: self.name@,
            complexity: self.complexity@,
            package_name: opt_view(self.package_name),
        }
    }
}

impl View for ContractsContext {
    type V = ContractsModel;

    open spec fn view(&self) -> ContractsModel {
        ContractsModel { invariants: views(self.invariants@) }
    }
}

impl View for TestContext {
    type V = TestCaseModel;

    open spec fn view(&self) -> TestCaseModel {
        TestCaseModel {
            name: self.name@,
            setup: opt_view(self.setup),
            actions: views(self.actions@),
            assertions: views(self.assertions@),
        }
    }
}

impl View for VerificationContext {
    type V = VerificationModel;

    open spec fn view(&self) -> VerificationModel {
        VerificationModel { test_cases: self.test_cases@.map_values(|t: TestContext| t@) }
    }
}

impl View for GenericContext {
    type V = GenericContextModel;

    open spec fn view(&self) -> GenericContextModel {
        GenericContextModel { name: self.name@, bound: self.bound@ }
    }
}

impl View for FieldContext {
    type V = FieldContextModel;

    open spec fn view(&self) -> FieldContextModel {
        FieldContextModel { name: self.name@, type_text: self.type_text@ }
    }
}

impl View for StructContext {
    type V = StructContextModel;

    open spec fn view(&self) -> StructContextModel {
        StructContextModel {
            name: self.name@,
            generics: self.generics@.map_values(|g: GenericContext| g@),
            fields: self.fields@.map_values(|f: FieldContext| f@),
        }
    }
}

impl View for RawStructContext {
    type V = RawStructContextModel;

    open spec fn view(&self) -> RawStructContextModel {
        RawStructContextModel {
            name: self.name@,
            generics: self.generics@.map_values(|g: GenericContext| g@),
            fields: self.fields@.map_values(|f: FieldDef| f@),
        }
    }
}

impl View for MethodContext {
    type V = MethodContextModel;

    open spec fn view(&self) -> MethodContextModel {
        MethodContextModel {
            name: self.name@,
            params: self.params@.map_values(|p: FieldContext| p@),
            returns: opt_view(self.returns),
            raises: self.raises,
            preconditions: views(self.preconditions@),
            postconditions: views(self.postconditions@),
            injected_assertions: views(self.injected_assertions@),
        }
    }
}

impl View for TemplateContext {
    type V = TemplateContextModel;

    open spec fn view(&self) -> TemplateContextModel {
        TemplateContextModel {
            metadata: self.metadata@,
            contracts: match self.contracts {
                Some(c) => Some(c@),
                None => None,
            },
            structs: match self.structs {
                Some(v) => Some(v@.map_values(|s: StructContext| s@)),
                None => None,
            },
            raw_structs: match self.raw_structs {
                Some(v) => Some(v@.map_values(|s: RawStructContext| s@)),
                None => None,
            },
            struct_def: match self.struct_def {
                Some(s) => Some(s@),
                None => None,
            },
            methods: match self.methods {
                Some(v) => Some(v@.map_values(|m: MethodContext| m@)),
                None => None,
            },
            raw_methods: match self.raw_methods {
                Some(v) => Some(v@.map_values(|m: MethodDef| m@)),
                None => None,
            },
            method: match self.method {
                Some(m) => Some(m@),
                None => None,
            },
            verification: match self.verification {
                Some(v) => Some(v@),
                None => None,
            },
        }
    }
}

} // verus!
