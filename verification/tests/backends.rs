use dsa_spec::ast::{
    Complexity, Contracts, FieldDef, GenericParam, Metadata, MethodDef, ParamDef, Spec, StructDef,
    Type, Verification,
};
use dsa_spec::backend::{plan_files, plan_is_translatable, Language, RenderJob};
use dsa_spec::contracts::inject_assertions;
use dsa_spec::csharp_backend::CSharpBackend;
use dsa_spec::error::BackendError;
use dsa_spec::go_backend::GoBackend;
use dsa_spec::python_backend::{is_result_type, to_python_type, translate_simple_type};
use dsa_spec::typescript_backend::TypeScriptBackend;

fn plan(b: Language, spec: &Spec) -> Vec<RenderJob> {
    assert!(plan_is_translatable(b, spec));
    plan_files(b, spec).unwrap()
}

fn job<'a>(jobs: &'a [RenderJob], name: &str) -> &'a RenderJob {
    jobs.iter().find(|j| j.filename == name).unwrap()
}

fn test_metadata() -> Metadata {
    Metadata {
        name: "Test".into(),
        category: "test".into(),
        complexity: Complexity::default(),
        tags: vec![],
    }
}

fn one_struct_spec(name: &str, generics: Vec<GenericParam>, fields: Vec<FieldDef>, methods: Vec<MethodDef>) -> Spec {
    Spec {
        spec_version: "1.0".into(),
        metadata: test_metadata(),
        contracts: Contracts::default(),
        structs: vec![StructDef {
            name: name.into(),
            generics,
            fields,
        }],
        methods,
        verification: Verification::default(),
    }
}

// ---------------------------------------------------------------- Python

#[test]
fn python_backend_test_translate_hashmap() {
    assert_eq!(translate_simple_type("HashMap<K,V>"), "Dict[K, V]");
}

#[test]
fn python_backend_test_translate_reference() {
    assert_eq!(translate_simple_type("&T"), "T");
    assert_eq!(translate_simple_type("&mut [T]"), "List[T]");
}

#[test]
fn python_backend_test_translate_primitives() {
    assert_eq!(translate_simple_type("usize"), "int");
    assert_eq!(translate_simple_type("i32"), "int");
    assert_eq!(translate_simple_type("bool"), "bool");
    assert_eq!(translate_simple_type("void"), "None");
}

#[test]
fn python_backend_test_translate_box_unwrapping() {
    assert_eq!(translate_simple_type("Box<T>"), "T");
    assert_eq!(translate_simple_type("Box<BSTNode<T>>"), "BSTNode<T>");
}

#[test]
fn python_backend_test_translate_nested_types() {
    assert_eq!(
        translate_simple_type("Vec<Option<i32>>"),
        "List[Optional[int]]"
    );
    assert_eq!(
        translate_simple_type("Option<Box<Node<T>>>"),
        "Optional[Node<T>]"
    );
}

#[test]
fn test_to_python_type_parameterized() {
    let typ = Type::Parameterized {
        base: "Vec".into(),
        params: vec![Type::Parameterized {
            base: "Option".into(),
            params: vec![Type::Simple("i32".into())],
        }],
    };
    // Note: Parameterized base types like "Vec" don't match
    // the "Vec<T>" pattern; they pass through as-is via to_python_type
    assert_eq!(to_python_type(&typ), "Vec[Option[int]]");
}

#[test]
fn python_backend_test_translate_unknown_type_passthrough() {
    assert_eq!(translate_simple_type("CustomType"), "CustomType");
    assert_eq!(translate_simple_type(""), "");
}

#[test]
fn test_is_result_type_with_parameterized_returns_true() {
    let typ = Type::Parameterized {
        base: "Result".into(),
        params: vec![Type::Simple("T".into()), Type::Simple("E".into())],
    };
    assert!(is_result_type(&typ));
}

#[test]
fn python_result_and_hashmap_forms() {
    assert_eq!(translate_simple_type("Result<Vec<i32>, String>"), "List[int]");
    assert_eq!(translate_simple_type("Result<T>"), "Result<T>");
    assert_eq!(translate_simple_type("HashMap<usize, Vec<T>>"), "Dict[int, List[T]]");
    assert_eq!(translate_simple_type("HashMap<K>"), "HashMap<K>");
    assert!(is_result_type(&Type::Simple("Result<T, E>".into())));
    assert!(!is_result_type(&Type::Simple("Option<T>".into())));
}

// ---------------------------------------------------------------- TypeScript

#[test]
fn test_option_to_union() {
    assert_eq!(
        TypeScriptBackend::to_typescript_type(&Type::Simple("Option<string>".into())),
        "string | null"
    );
    assert_eq!(
        TypeScriptBackend::to_typescript_type(&Type::Simple("Option<T>".into())),
        "T | null"
    );
}

#[test]
fn typescript_backend_test_translate_hashmap() {
    assert_eq!(
        TypeScriptBackend::translate_simple_type("HashMap<K,V>"),
        "Map<K, V>"
    );
}

#[test]
fn typescript_backend_test_translate_reference() {
    assert_eq!(TypeScriptBackend::translate_simple_type("&T"), "T");
    assert_eq!(TypeScriptBackend::translate_simple_type("&mut [T]"), "T[]");
}

#[test]
fn typescript_backend_test_translate_primitives() {
    assert_eq!(TypeScriptBackend::translate_simple_type("usize"), "number");
    assert_eq!(TypeScriptBackend::translate_simple_type("i32"), "number");
    assert_eq!(TypeScriptBackend::translate_simple_type("bool"), "boolean");
    assert_eq!(TypeScriptBackend::translate_simple_type("void"), "void");
}

#[test]
fn typescript_backend_test_translate_box_unwrapping() {
    assert_eq!(TypeScriptBackend::translate_simple_type("Box<T>"), "T");
    assert_eq!(
        TypeScriptBackend::translate_simple_type("Box<BSTNode<T>>"),
        "BSTNode<T>"
    );
}

#[test]
fn test_translate_result_type() {
    assert_eq!(
        TypeScriptBackend::translate_simple_type("Result<i32,String>"),
        "number"
    );
}

#[test]
fn typescript_backend_test_translate_nested_types() {
    assert_eq!(
        TypeScriptBackend::translate_simple_type("Vec<Option<string>>"),
        "(string | null)[]"
    );
    assert_eq!(
        TypeScriptBackend::translate_simple_type("Option<Box<Node<T>>>"),
        "Node<T> | null"
    );
}

#[test]
fn test_to_typescript_type_parameterized() {
    let typ = Type::Parameterized {
        base: "Map".into(),
        params: vec![Type::Simple("K".into()), Type::Simple("V".into())],
    };
    assert_eq!(TypeScriptBackend::to_typescript_type(&typ), "Map<K, V>");
}

#[test]
fn typescript_backend_test_is_result_type_parameterized_returns_true() {
    let typ = Type::Parameterized {
        base: "Result".into(),
        params: vec![Type::Simple("T".into()), Type::Simple("E".into())],
    };
    assert!(TypeScriptBackend::is_result_type(&typ));
}

#[test]
fn typescript_backend_test_translate_unknown_type_passthrough() {
    assert_eq!(TypeScriptBackend::translate_simple_type("MyType"), "MyType");
    assert_eq!(TypeScriptBackend::translate_simple_type(""), "");
}

// ---------------------------------------------------------------- C#

#[test]
fn test_option_to_nullable() {
    assert_eq!(
        CSharpBackend::to_csharp_type(&Type::Simple("Option<i32>".to_string())),
        "int?"
    );
    assert_eq!(
        CSharpBackend::to_csharp_type(&Type::Simple("Option<string>".to_string())),
        "string?"
    );
    assert_eq!(
        CSharpBackend::to_csharp_type(&Type::Simple("Option<T>".to_string())),
        "T?"
    );
}

#[test]
fn test_vec_to_list() {
    assert_eq!(
        CSharpBackend::to_csharp_type(&Type::Simple("Vec<T>".to_string())),
        "List<T>"
    );
    assert_eq!(
        CSharpBackend::to_csharp_type(&Type::Simple("Vec<i32>".to_string())),
        "List<int>"
    );
}

#[test]
fn csharp_backend_test_translate_hashmap() {
    assert_eq!(
        CSharpBackend::translate_simple_type("HashMap<K,V>"),
        "Dictionary<K,V>"
    );
}

#[test]
fn csharp_backend_test_translate_reference() {
    assert_eq!(CSharpBackend::translate_simple_type("&T"), "T");
    assert_eq!(CSharpBackend::translate_simple_type("&mut [T]"), "T[]");
}

#[test]
fn csharp_backend_test_translate_primitives() {
    assert_eq!(CSharpBackend::translate_simple_type("usize"), "int");
    assert_eq!(CSharpBackend::translate_simple_type("i32"), "int");
    assert_eq!(CSharpBackend::translate_simple_type("bool"), "bool");
    assert_eq!(CSharpBackend::translate_simple_type("void"), "void");
}

#[test]
fn csharp_backend_test_translate_box_unwrapping() {
    assert_eq!(CSharpBackend::translate_simple_type("Box<T>"), "T");
    assert_eq!(
        CSharpBackend::translate_simple_type("Box<BSTNode<T>>"),
        "BSTNode<T>"
    );
}

#[test]
fn csharp_backend_test_translate_nested_types() {
    assert_eq!(
        CSharpBackend::translate_simple_type("Vec<Option<i32>>"),
        "List<int?>"
    );
    assert_eq!(
        CSharpBackend::translate_simple_type("Option<Box<Node<T>>>"),
        "Node<T>?"
    );
}

#[test]
fn test_to_csharp_type_parameterized() {
    let typ = Type::Parameterized {
        base: "Dictionary".into(),
        params: vec![Type::Simple("K".into()), Type::Simple("V".into())],
    };
    assert_eq!(CSharpBackend::to_csharp_type(&typ), "Dictionary<K, V>");
}

#[test]
fn csharp_result_type_only_simple() {
    assert!(CSharpBackend::is_result_type(&Type::Simple("Result<T, E>".into())));
    let typ = Type::Parameterized {
        base: "Result".into(),
        params: vec![Type::Simple("T".into()), Type::Simple("E".into())],
    };
    assert!(!CSharpBackend::is_result_type(&typ));
}

#[test]
fn test_generate_returns_class_file() {
    let spec = one_struct_spec(
        "Person",
        vec![],
        vec![
            FieldDef {
                name: "Name".into(),
                field_type: Type::Simple("string".into()),
            },
            FieldDef {
                name: "Age".into(),
                field_type: Type::Simple("i32".into()),
            },
        ],
        vec![],
    );
    let jobs = plan(Language::CSharp, &spec);
    assert!(jobs.iter().any(|j| j.filename == "Person.cs"));
}

#[test]
fn test_generate_returns_method_file() {
    let spec = one_struct_spec(
        "TestClass",
        vec![],
        vec![],
        vec![MethodDef {
            name: "DoWork".into(),
            params: vec![],
            returns: Some("void".into()),
            preconditions: vec![],
            postconditions: vec![],
            injected_assertions: vec![],
        }],
    );
    let jobs = plan(Language::CSharp, &spec);
    assert!(jobs.iter().any(|j| j.filename == "TestClass.DoWork.cs"));
}

#[test]
fn test_property_generation() {
    let spec = one_struct_spec(
        "Person",
        vec![],
        vec![
            FieldDef {
                name: "Name".into(),
                field_type: Type::Simple("string".into()),
            },
            FieldDef {
                name: "Age".into(),
                field_type: Type::Simple("i32".into()),
            },
        ],
        vec![],
    );
    let jobs = plan(Language::CSharp, &spec);
    let class = job(&jobs, "Person.cs");
    let fields = &class.context.struct_def.as_ref().unwrap().fields;
    assert_eq!(fields[0].name, "Name");
    assert_eq!(fields[0].type_text, "string");
    assert_eq!(fields[1].name, "Age");
    assert_eq!(fields[1].type_text, "int");
}

// ---------------------------------------------------------------- Go

#[test]
fn test_go_constraint_comparable() {
    assert_eq!(
        GoBackend::go_constraint(&["comparable".into()]),
        "comparable"
    );
}

#[test]
fn test_go_constraint_defaults_to_any() {
    assert_eq!(GoBackend::go_constraint(&[]), "any");
    assert_eq!(GoBackend::go_constraint(&["unknown".into()]), "any");
}

#[test]
fn test_go_constraint_ord() {
    assert_eq!(
        GoBackend::go_constraint(&["Ord".into()]),
        "constraints.Ordered"
    );
}

#[test]
fn test_result_to_tuple_error() {
    assert_eq!(
        GoBackend::to_go_type(&Type::Simple("Result<i32,String>".into())),
        "(int32, error)"
    );
    assert_eq!(
        GoBackend::to_go_type(&Type::Simple("Result<T,E>".into())),
        "(T, error)"
    );
}

#[test]
fn test_option_to_pointer() {
    assert_eq!(
        GoBackend::to_go_type(&Type::Simple("Option<string>".into())),
        "*string"
    );
    assert_eq!(
        GoBackend::to_go_type(&Type::Simple("Option<T>".into())),
        "*T"
    );
}

#[test]
fn go_backend_test_translate_hashmap() {
    assert_eq!(GoBackend::translate_simple_type("HashMap<K,V>"), "map[K]V");
}

#[test]
fn go_backend_test_translate_reference() {
    assert_eq!(GoBackend::translate_simple_type("&T"), "T");
    assert_eq!(GoBackend::translate_simple_type("&mut [T]"), "[]T");
}

#[test]
fn go_backend_test_translate_primitives() {
    assert_eq!(GoBackend::translate_simple_type("usize"), "int");
    assert_eq!(GoBackend::translate_simple_type("i32"), "int32");
    assert_eq!(GoBackend::translate_simple_type("bool"), "bool");
    assert_eq!(GoBackend::translate_simple_type("void"), "");
}

#[test]
fn go_backend_test_translate_box_unwrapping() {
    assert_eq!(GoBackend::translate_simple_type("Box<T>"), "T");
    assert_eq!(
        GoBackend::translate_simple_type("Box<BSTNode<T>>"),
        "BSTNode<T>"
    );
}

#[test]
fn go_backend_test_translate_nested_types() {
    assert_eq!(
        GoBackend::translate_simple_type("Vec<Option<string>>"),
        "[]*string"
    );
    assert_eq!(
        GoBackend::translate_simple_type("Option<Box<Node<T>>>"),
        "*Node<T>"
    );
}

#[test]
fn test_to_go_type_parameterized() {
    let typ = Type::Parameterized {
        base: "map".into(),
        params: vec![Type::Simple("K".into()), Type::Simple("V".into())],
    };
    assert_eq!(GoBackend::to_go_type(&typ), "map[K, V]");
}

#[test]
fn go_backend_test_is_result_type_parameterized_returns_true() {
    let typ = Type::Parameterized {
        base: "Result".into(),
        params: vec![Type::Simple("T".into()), Type::Simple("E".into())],
    };
    assert!(GoBackend::is_result_type(&typ));
}

#[test]
fn go_backend_test_translate_unknown_type_passthrough() {
    assert_eq!(GoBackend::translate_simple_type("MyType"), "MyType");
    assert_eq!(GoBackend::translate_simple_type(""), "");
}

#[test]
fn test_package_name_sanitization() {
    let spec = Spec {
        spec_version: "1.0".into(),
        metadata: Metadata {
            name: "Binary Search Tree".into(),
            category: "trees".into(),
            complexity: Complexity::default(),
            tags: vec![],
        },
        contracts: Contracts::default(),
        structs: vec![],
        methods: vec![],
        verification: Verification::default(),
    };
    let jobs = plan(Language::Go, &spec);
    assert_eq!(
        jobs[0].context.metadata.package_name.as_deref(),
        Some("binarysearchtree")
    );
    assert_eq!(GoBackend::sanitize_package_name("Binary Search Tree"), "binarysearchtree");
    assert_eq!(GoBackend::sanitize_package_name("a-b_c 9"), "ab_c9");
}

#[test]
fn test_generated_struct_uses_generic_constraint() {
    let spec = one_struct_spec(
        "MyStruct",
        vec![GenericParam {
            name: "T".into(),
            constraints: vec!["comparable".into()],
        }],
        vec![],
        vec![],
    );
    let jobs = plan(Language::Go, &spec);
    let class = job(&jobs, "MyStruct.go");
    let generics = &class.context.struct_def.as_ref().unwrap().generics;
    assert_eq!(generics.len(), 1);
    assert_eq!(generics[0].name, "T");
    assert_eq!(generics[0].bound, "comparable");
}

#[test]
fn test_generated_method_returns_tuple_error() {
    let spec = one_struct_spec(
        "MyStruct",
        vec![GenericParam {
            name: "T".into(),
            constraints: vec![],
        }],
        vec![],
        vec![MethodDef {
            name: "DoWork".into(),
            params: vec![],
            returns: Some("Result<i32,String>".into()),
            preconditions: vec![],
            postconditions: vec![],
            injected_assertions: vec![],
        }],
    );
    let jobs = plan(Language::Go, &spec);
    let method = job(&jobs, "MyStruct_DoWork.go").context.method.as_ref().unwrap();
    assert_eq!(method.name, "DoWork");
    assert_eq!(method.returns.as_deref(), Some("(int32, error)"));
    assert!(method.raises);
}

#[test]
fn test_go_field_names_are_pascal_case() {
    let spec = one_struct_spec(
        "MyStruct",
        vec![],
        vec![
            FieldDef {
                name: "first_name".into(),
                field_type: Type::Simple("string".into()),
            },
            FieldDef {
                name: "item_count".into(),
                field_type: Type::Simple("int".into()),
            },
        ],
        vec![],
    );
    let jobs = plan(Language::Go, &spec);
    let fields = &job(&jobs, "MyStruct.go").context.struct_def.as_ref().unwrap().fields;
    assert_eq!(fields[0].name, "FirstName");
    assert_eq!(fields[0].type_text, "string");
    assert_eq!(fields[1].name, "ItemCount");
    assert_eq!(fields[1].type_text, "int");
}

#[test]
fn test_go_param_names_are_camel_case() {
    let spec = one_struct_spec(
        "MyStruct",
        vec![],
        vec![],
        vec![MethodDef {
            name: "DoWork".into(),
            params: vec![
                ParamDef {
                    name: "first_name".into(),
                    param_type: Type::Simple("string".into()),
                },
                ParamDef {
                    name: "item_count".into(),
                    param_type: Type::Simple("int".into()),
                },
            ],
            returns: Some("void".into()),
            ..Default::default()
        }],
    );
    let jobs = plan(Language::Go, &spec);
    let method = job(&jobs, "MyStruct_DoWork.go").context.method.as_ref().unwrap();
    assert_eq!(method.params[0].name, "firstName");
    assert_eq!(method.params[0].type_text, "string");
    assert_eq!(method.params[1].name, "itemCount");
    assert_eq!(method.params[1].type_text, "int");
}

#[test]
fn test_go_casing_with_contract_assertions() {
    let spec = one_struct_spec(
        "MyStruct",
        vec![],
        vec![FieldDef {
            name: "my_field".into(),
            field_type: Type::Simple("int".into()),
        }],
        vec![MethodDef {
            name: "DoStuff".into(),
            params: vec![ParamDef {
                name: "my_param".into(),
                param_type: Type::Simple("string".into()),
            }],
            returns: Some("bool".into()),
            preconditions: vec!["my_param != \"\"".into()],
            postconditions: vec!["result ok".into()],
            injected_assertions: vec!["precondition: my_param != \"\"".into()],
        }],
    );
    let injected = inject_assertions(&spec);
    let jobs = plan(Language::Go, &injected);
    let fields = &job(&jobs, "MyStruct.go").context.struct_def.as_ref().unwrap().fields;
    assert_eq!(fields[0].name, "MyField");
    let method = job(&jobs, "MyStruct_DoStuff.go").context.method.as_ref().unwrap();
    assert_eq!(method.params[0].name, "myParam");
    assert_eq!(method.name, "DoStuff");
}

#[test]
fn plan_monolithic_when_no_structs() {
    let spec = Spec {
        spec_version: "1.0".into(),
        metadata: test_metadata(),
        ..Default::default()
    };
    let jobs = plan(Language::Python, &spec);
    assert_eq!(jobs.len(), 1);
    assert_eq!(jobs[0].filename, "TestMethods.py");
}

#[test]
fn plan_refuses_duplicate_method_names_except_csharp() {
    let m = MethodDef {
        name: "Push".into(),
        ..Default::default()
    };
    let spec = one_struct_spec("S", vec![], vec![], vec![m.clone(), m]);
    match plan_files(Language::Go, &spec) {
        Err(BackendError::TemplateInit { message }) => assert!(message.contains("Push")),
        _ => panic!("expected a refusal"),
    }
    assert_eq!(plan(Language::CSharp, &spec).len(), 3);
}

fn naming_spec() -> Spec {
    one_struct_spec(
        "My_Struct",
        vec![],
        vec![FieldDef {
            name: "first_name".into(),
            field_type: Type::Simple("bool".into()),
        }],
        vec![
            MethodDef {
                name: "pop_front".into(),
                params: vec![ParamDef {
                    name: "max_count".into(),
                    param_type: Type::Simple("usize".into()),
                }],
                ..Default::default()
            },
            MethodDef {
                name: "is_empty".into(),
                ..Default::default()
            },
        ],
    )
}

#[test]
fn naming_conventions_per_language() {
    let spec = naming_spec();
    let cases = [
        (Language::CSharp, "FirstName", "PopFront", "maxCount"),
        (Language::Go, "FirstName", "PopFront", "maxCount"),
        (Language::TypeScript, "firstName", "popFront", "maxCount"),
        (Language::Python, "first_name", "pop_front", "max_count"),
        (Language::Rust, "first_name", "pop_front", "max_count"),
    ];
    for (lang, field, method, param) in cases {
        let jobs = plan(lang, &spec);
        let class = jobs[0].context.struct_def.as_ref().unwrap();
        assert_eq!(class.name, "My_Struct");
        assert_eq!(class.fields[0].name, field);
        let m = jobs[1].context.method.as_ref().unwrap();
        assert_eq!(m.name, method);
        assert_eq!(m.params[0].name, param);
    }
}

#[test]
fn one_file_per_method_in_order() {
    let spec = naming_spec();
    let jobs = plan(Language::TypeScript, &spec);
    let names: Vec<&str> = jobs.iter().map(|j| j.filename.as_str()).collect();
    assert_eq!(names, vec!["My_Struct.ts", "My_Struct_popFront.ts", "My_Struct_isEmpty.ts"]);
    assert_eq!(jobs[0].template, "typescript/class.ts.tera");
    assert_eq!(jobs[1].template, "typescript/method.ts.tera");
    let jobs = plan(Language::CSharp, &spec);
    let names: Vec<&str> = jobs.iter().map(|j| j.filename.as_str()).collect();
    assert_eq!(names, vec!["My_Struct.cs", "My_Struct.PopFront.cs", "My_Struct.IsEmpty.cs"]);
    let jobs = plan(Language::Go, &spec);
    let names: Vec<&str> = jobs.iter().map(|j| j.filename.as_str()).collect();
    assert_eq!(names, vec!["My_Struct.go", "My_Struct_pop_front.go", "My_Struct_is_empty.go"]);
}
