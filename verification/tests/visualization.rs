use dsa_spec::ast::{FieldDef, Metadata, MethodDef, ParamDef, Spec, StructDef, Type};
use dsa_spec::visualization::{generate, generate_dot, generate_mermaid};

fn make_spec_with_structs(
    name: &str,
    structs: Vec<StructDef>,
    methods: Vec<MethodDef>,
) -> Spec {
    Spec {
        spec_version: "1.0".into(),
        metadata: Metadata {
            name: name.into(),
            category: "test".into(),
            ..Default::default()
        },
        structs,
        methods,
        ..Default::default()
    }
}

fn make_struct(name: &str, fields: Vec<FieldDef>) -> StructDef {
    StructDef {
        name: name.into(),
        fields,
        ..Default::default()
    }
}

fn field(name: &str, type_str: &str) -> FieldDef {
    FieldDef {
        name: name.into(),
        field_type: Type::Simple(type_str.into()),
    }
}

#[test]
fn test_dot_empty_structs_shows_methods() {
    let spec = make_spec_with_structs(
        "Quicksort",
        vec![],
        vec![MethodDef {
            name: "quicksort".into(),
            params: vec![ParamDef {
                name: "arr".into(),
                param_type: Type::Simple("&mut [T]".into()),
            }],
            returns: Some("()".into()),
            ..Default::default()
        }],
    );
    let dot = generate_dot(&spec);
    assert!(dot.contains("digraph \"Quicksort\""));
    assert!(dot.contains("quicksort"));
    assert!(dot.contains("&mut [T]"));
}

#[test]
fn test_dot_single_struct_no_edges() {
    let s = make_struct("DynamicArray", vec![field("len", "usize")]);
    let spec = make_spec_with_structs("DynamicArray", vec![s], vec![]);
    let dot = generate_dot(&spec);
    assert!(dot.contains("digraph \"DynamicArray\""));
    assert!(dot.contains("DynamicArray"));
    assert!(dot.contains("len: usize"));
    assert!(!dot.contains("->"));
}

#[test]
fn test_dot_self_referencing_struct() {
    let s = make_struct(
        "Node",
        vec![field("value", "T"), field("next", "Option<Box<Node<T>>>")],
    );
    let spec = make_spec_with_structs("SinglyLinkedList", vec![s], vec![]);
    let dot = generate_dot(&spec);
    assert!(dot.contains("digraph \"SinglyLinkedList\""));
    assert!(dot.contains("Node"));
    assert!(dot.contains("Option<Box<Node<T>>>"));
    assert!(dot.contains("Node:next -> Node [dir=both]"));
}

#[test]
fn test_dot_multiple_structs_with_edges() {
    let node = make_struct(
        "BSTNode",
        vec![
            field("value", "T"),
            field("left", "Option<Box<BSTNode<T>>>"),
            field("right", "Option<Box<BSTNode<T>>>"),
        ],
    );
    let tree = make_struct(
        "BinarySearchTree",
        vec![field("root", "Option<Box<BSTNode<T>>>")],
    );
    let spec = make_spec_with_structs("BinarySearchTree", vec![node, tree], vec![]);
    let dot = generate_dot(&spec);
    assert!(dot.contains("digraph \"BinarySearchTree\""));
    assert!(dot.contains("BSTNode"));
    assert!(dot.contains("BinarySearchTree"));
    // BSTNode self-edges
    assert!(dot.contains("BSTNode:left -> BSTNode"));
    assert!(dot.contains("BSTNode:right -> BSTNode"));
    // Tree -> Node edge
    assert!(dot.contains("BinarySearchTree:root -> BSTNode"));
}

#[test]
fn test_dot_spec_begin_end() {
    let spec = make_spec_with_structs("Test", vec![], vec![]);
    let dot = generate_dot(&spec);
    assert!(dot.starts_with("digraph \"Test\""));
    assert!(dot.trim_end().ends_with('}'));
}

#[test]
fn test_mermaid_empty_structs_shows_methods() {
    let spec = make_spec_with_structs(
        "Mergesort",
        vec![],
        vec![MethodDef {
            name: "mergesort".into(),
            params: vec![ParamDef {
                name: "arr".into(),
                param_type: Type::Simple("&mut [T]".into()),
            }],
            returns: Some("()".into()),
            ..Default::default()
        }],
    );
    let m = generate_mermaid(&spec);
    assert!(m.contains("classDiagram"));
    assert!(m.contains("class Mergesort"));
    assert!(m.contains("mergesort"));
}

#[test]
fn test_mermaid_struct_class() {
    let s = make_struct(
        "BSTNode",
        vec![
            field("value", "T"),
            field("left", "Option<Box<BSTNode<T>>>"),
        ],
    );
    let spec = make_spec_with_structs("BST", vec![s], vec![]);
    let m = generate_mermaid(&spec);
    assert!(m.contains("classDiagram"));
    assert!(m.contains("class BSTNode"));
    assert!(m.contains("+value: T"));
    // Mermaid uses ~ instead of <>
    assert!(m.contains("Option~Box~BSTNode~T~~"));
    // Relationship
    assert!(m.contains("BSTNode --> BSTNode"));
}

#[test]
fn test_mermaid_relationship_between_structs() {
    let node = make_struct("Node", vec![field("value", "T")]);
    let list = make_struct(
        "SinglyLinkedList",
        vec![field("head", "Option<Box<Node<T>>>")],
    );
    let spec = make_spec_with_structs("List", vec![node, list], vec![]);
    let m = generate_mermaid(&spec);
    assert!(m.contains("SinglyLinkedList --> Node"));
}

#[test]
fn test_mermaid_escapes_angle_brackets() {
    let s = make_struct("Wrapper", vec![field("data", "Vec<u8>")]);
    let spec = make_spec_with_structs("Test", vec![s], vec![]);
    let m = generate_mermaid(&spec);
    assert!(m.contains("Vec~u8~"));
    assert!(!m.contains("Vec<u8>"));
}

#[test]
fn test_generate_defaults_to_dot() {
    let spec = make_spec_with_structs("Test", vec![], vec![]);
    let result = generate(&spec, "unknown_format");
    assert!(result.contains("digraph"));
    assert!(!result.contains("classDiagram"));
}

#[test]
fn test_generate_dot_format() {
    let spec = make_spec_with_structs("Test", vec![], vec![]);
    let result = generate(&spec, "dot");
    assert!(result.contains("digraph"));
}

#[test]
fn test_generate_graphviz_format() {
    let spec = make_spec_with_structs("Test", vec![], vec![]);
    let result = generate(&spec, "graphviz");
    assert!(result.contains("digraph"));
}

#[test]
fn test_generate_mermaid_format() {
    let spec = make_spec_with_structs("Test", vec![], vec![]);
    let result = generate(&spec, "mermaid");
    assert!(result.contains("classDiagram"));
}

#[test]
fn test_dot_doubly_linked_list() {
    let node = make_struct(
        "Node",
        vec![
            field("value", "T"),
            field("prev", "Option<Box<Node<T>>>"),
            field("next", "Option<Box<Node<T>>>"),
        ],
    );
    let list = make_struct(
        "DoublyLinkedList",
        vec![
            field("head", "Option<Box<Node<T>>>"),
            field("tail", "Option<Box<Node<T>>>"),
        ],
    );
    let spec = make_spec_with_structs("DoublyLinkedList", vec![node, list], vec![]);
    let dot = generate_dot(&spec);
    assert!(dot.contains("Node:prev -> Node"));
    assert!(dot.contains("Node:next -> Node"));
    assert!(dot.contains("DoublyLinkedList:head -> Node"));
    assert!(dot.contains("DoublyLinkedList:tail -> Node"));
}
