use dsa_spec::ast::{Metadata, MethodDef, Spec, StructDef};
use dsa_spec::error::{BackendError, SpecError};
use dsa_spec::migrate::migration_step;
use dsa_spec::template_engine::{sanitize_filename, validate_unique_names};

fn spec_with(structs: &[&str], methods: &[&str]) -> Spec {
    Spec {
        spec_version: "1.0".into(),
        metadata: Metadata {
            name: "T".into(),
            category: "c".into(),
            ..Default::default()
        },
        structs: structs
            .iter()
            .map(|n| StructDef {
                name: (*n).into(),
                ..Default::default()
            })
            .collect(),
        methods: methods
            .iter()
            .map(|n| MethodDef {
                name: (*n).into(),
                ..Default::default()
            })
            .collect(),
        ..Default::default()
    }
}

#[test]
fn migration_same_version_is_noop() {
    assert!(matches!(migration_step("1.0", "1.0"), Ok(None)));
    assert!(matches!(migration_step("2.0", "2.0"), Ok(None)));
}

#[test]
fn migration_v1_to_v2() {
    assert_eq!(migration_step("1.0", "2.0").unwrap().as_deref(), Some("2.0"));
}

#[test]
fn migration_unsupported_version_mismatch() {
    match migration_step("0.5", "2.0") {
        Err(SpecError::VersionMismatch { expected, found }) => {
            assert_eq!(expected, "1.0");
            assert_eq!(found, "0.5");
        }
        _ => panic!("expected a version mismatch"),
    }
    assert!(migration_step("1.0", "3.0").is_err());
    assert!(migration_step("2.0", "1.0").is_err());
}

#[test]
fn unique_names_accepted() {
    assert!(validate_unique_names(&spec_with(&["A", "B"], &["push", "pop"])).is_ok());
    assert!(validate_unique_names(&spec_with(&[], &[])).is_ok());
}

#[test]
fn duplicate_struct_name_reported_first() {
    match validate_unique_names(&spec_with(&["A", "B", "A"], &["m", "m"])) {
        Err(BackendError::TemplateInit { message }) => {
            assert_eq!(message, "Duplicate struct name: 'A'")
        }
        _ => panic!("expected a duplicate struct name"),
    }
}

#[test]
fn duplicate_method_name_reported() {
    match validate_unique_names(&spec_with(&["A"], &["x", "y", "y", "x"])) {
        Err(BackendError::TemplateInit { message }) => {
            assert_eq!(message, "Duplicate method name: 'y'")
        }
        _ => panic!("expected a duplicate method name"),
    }
}

#[test]
fn spec_error_messages() {
    let e = SpecError::ParseError {
        message: "bad".into(),
        line: Some(3),
        column: Some(14),
    };
    assert_eq!(e.to_string(), "parse error at line 3, column 14: bad");
    let e = SpecError::ParseError {
        message: "bad".into(),
        line: Some(3),
        column: None,
    };
    assert_eq!(e.to_string(), "parse error: bad");
    let e = SpecError::ValidationError {
        message: "missing".into(),
        path: "/metadata".into(),
    };
    assert_eq!(e.to_string(), "validation error at /metadata: missing");
    let e = SpecError::SchemaError {
        message: "x".into(),
    };
    assert_eq!(e.to_string(), "schema error: x");
    let e = SpecError::VersionMismatch {
        expected: "1.0".into(),
        found: "0.5".into(),
    };
    assert_eq!(e.to_string(), "version mismatch: expected 1.0, found 0.5");
    let e = SpecError::IoError {
        message: "gone".into(),
    };
    assert_eq!(e.to_string(), "I/O error: gone");
}

#[test]
fn backend_error_messages() {
    let e = BackendError::TemplateInit {
        message: "a".into(),
    };
    assert_eq!(e.to_string(), "template init error: a");
    let e = BackendError::TemplateRender {
        message: "b".into(),
    };
    assert_eq!(e.to_string(), "template render error: b");
    let e = BackendError::Formatter {
        message: "c".into(),
    };
    assert_eq!(e.to_string(), "formatter error: c");
}

#[test]
fn sanitize_is_idempotent_on_examples() {
    for s in ["a/b", "..", " x. ", "", "a..b", "<>:|?*", "ok"] {
        let once = sanitize_filename(s);
        assert_eq!(sanitize_filename(&once), once);
        assert!(!once.contains('/') && !once.contains("..") && !once.is_empty());
    }
}

#[test]
fn sanitize_shortens_double_dots() {
    assert_eq!(sanitize_filename("a..b"), "a.b");
    assert_eq!(sanitize_filename("a....b"), "a.b");
    assert_eq!(sanitize_filename("../etc/passwd"), "_etc_passwd");
    assert_eq!(sanitize_filename("x. .y"), "x. .y");
}

use dsa_spec::ast::{ParamDef, TestCase, Type, Verification};
use dsa_spec::backend::{bound_keys_of, raises_key_of, type_key_of, Language};
use dsa_spec::casing::{to_camel_case, to_pascal_case};
use dsa_spec::visualization::{generate, generate_sequence};

fn stack_spec() -> Spec {
    let mut spec = spec_with(&["Stack"], &[]);
    spec.methods = vec![
        MethodDef {
            name: "push".into(),
            params: vec![ParamDef {
                name: "item".into(),
                param_type: Type::Simple("T".into()),
            }],
            ..Default::default()
        },
        MethodDef {
            name: "pop".into(),
            returns: Some("Option<T>".into()),
            ..Default::default()
        },
    ];
    spec.verification = Verification {
        test_cases: vec![TestCase {
            name: "push_pop".into(),
            setup: Some("let mut s = Stack::new();".into()),
            actions: vec!["s.push(1)".into()],
            assertions: vec!["assert_eq!(s.pop(), Some(1))".into()],
        }],
    };
    spec
}

#[test]
fn sequence_diagram_exact_text() {
    let expected = [
        "sequenceDiagram\n",
        "    participant Client\n",
        "    participant Target as Stack\n",
        "    Client->>Target: push(item: T)\n",
        "    Target-->>Client: void\n",
        "    Client->>Target: pop()\n",
        "    Target-->>Client: Option<T>\n",
        "    Note over Client,Target: push_pop\n",
        "    Client->>Target: let mut s = Stack::new()#59;\n",
        "    Client->>Target: s.push(1)\n",
        "    Note over Target: assert_eq!(s.pop(), Some(1))\n",
    ]
    .concat();
    let spec = stack_spec();
    assert_eq!(generate_sequence(&spec), expected);
    assert_eq!(generate(&spec, "sequence"), expected);
    assert_eq!(generate(&spec, "SEQUENCE"), expected);
    assert!(generate(&spec, "dot").starts_with("digraph \""));
}

#[test]
fn sequence_diagram_without_structs_targets_spec() {
    let spec = spec_with(&[], &["reset"]);
    assert_eq!(
        generate_sequence(&spec),
        [
            "sequenceDiagram\n",
            "    participant Client\n",
            "    participant Target as T\n",
            "    Client->>Target: reset()\n",
            "    Target-->>Client: void\n",
        ]
        .concat()
    );
}

#[test]
fn pascal_is_capitalized_camel_on_examples() {
    for (s, camel, pascal) in [
        ("foo_bar", "fooBar", "FooBar"),
        ("_private", "Private", "Private"),
        ("foo_", "foo", "Foo"),
        ("a__b", "aB", "AB"),
        ("", "", ""),
    ] {
        assert_eq!(to_camel_case(s), camel);
        assert_eq!(to_pascal_case(s), pascal);
        assert!(!to_pascal_case(s).contains('_'));
    }
}

#[test]
fn template_key_names() {
    assert_eq!(type_key_of(Language::CSharp), "csharp_type");
    assert_eq!(type_key_of(Language::Rust), "rust_type");
    assert_eq!(raises_key_of(Language::Python), Some("raises_exception"));
    assert_eq!(raises_key_of(Language::Go), Some("returns_error"));
    assert_eq!(raises_key_of(Language::Rust), None);
    assert_eq!(bound_keys_of(Language::Go), vec!["constraint", "bound"]);
    assert_eq!(bound_keys_of(Language::TypeScript), vec!["constraints"]);
    assert_eq!(bound_keys_of(Language::Python), vec!["bounds"]);
}
