use dsa_spec::ast::{
    Complexity, Contracts, FieldDef, Metadata, MethodDef, ParamDef, Spec, StructDef, TestCase, Type,
    Verification,
};
use dsa_spec::doc_gen::generate_doc;

fn sample_spec() -> Spec {
    Spec {
        spec_version: "1.0".into(),
        metadata: Metadata {
            name: "Stack".into(),
            category: "linear".into(),
            complexity: Complexity {
                time: Some("O(1)".into()),
                space: Some("O(n)".into()),
            },
            tags: vec!["lifo".into(), "generic".into()],
        },
        contracts: Contracts {
            invariants: vec!["size >= 0".into()],
        },
        structs: vec![StructDef {
            name: "Stack".into(),
            generics: vec![],
            fields: vec![FieldDef {
                name: "items".into(),
                field_type: Type::Simple("Vec<T>".into()),
            }],
        }],
        methods: vec![MethodDef {
            name: "push".into(),
            params: vec![ParamDef {
                name: "item".into(),
                param_type: Type::Simple("T".into()),
            }],
            returns: Some("void".into()),
            preconditions: vec!["stack not full".into()],
            postconditions: vec!["item on top".into()],
            injected_assertions: vec![],
        }],
        verification: Verification {
            test_cases: vec![TestCase {
                name: "push_works".into(),
                setup: Some("let mut s = Stack::new();".into()),
                actions: vec!["s.push(1)".into()],
                assertions: vec!["assert_eq!(s.pop(), Some(1))".into()],
            }],
        },
    }
}

#[test]
fn test_generates_markdown_title() {
    let doc = generate_doc(&sample_spec());
    assert!(doc.contains("# Stack"));
}

#[test]
fn test_includes_complexity() {
    let doc = generate_doc(&sample_spec());
    assert!(doc.contains("O(1)"));
    assert!(doc.contains("O(n)"));
}

#[test]
fn test_includes_invariants() {
    let doc = generate_doc(&sample_spec());
    assert!(doc.contains("size >= 0"));
}

#[test]
fn test_includes_struct_fields() {
    let doc = generate_doc(&sample_spec());
    assert!(doc.contains("| `items` | `Vec<T>` |"));
}

#[test]
fn test_includes_method_docs() {
    let doc = generate_doc(&sample_spec());
    assert!(doc.contains("### `push`"));
    assert!(doc.contains("**Returns:** `void`"));
    assert!(doc.contains("stack not full"));
    assert!(doc.contains("item on top"));
}
