use dsa_spec::ast::Type;

#[test]
fn test_type_display_simple() {
    let t = Type::Simple("i32".into());
    assert_eq!(t.to_string(), "i32");
}

#[test]
fn test_type_display_parameterized() {
    let t = Type::Parameterized {
        base: "Vec".into(),
        params: vec![Type::Simple("T".into())],
    };
    assert_eq!(t.to_string(), "Vec<T>");
}

#[test]
fn test_type_display_nested_parameterized() {
    let t = Type::Parameterized {
        base: "Option".into(),
        params: vec![Type::Parameterized {
            base: "Box".into(),
            params: vec![Type::Parameterized {
                base: "BSTNode".into(),
                params: vec![Type::Simple("T".into())],
            }],
        }],
    };
    assert_eq!(t.to_string(), "Option<Box<BSTNode<T>>>");
}

#[test]
fn test_type_display_multiple_params() {
    let t = Type::Parameterized {
        base: "HashMap".into(),
        params: vec![Type::Simple("K".into()), Type::Simple("V".into())],
    };
    assert_eq!(t.to_string(), "HashMap<K, V>");
}

#[test]
fn test_type_default_is_empty_simple() {
    let t = Type::default();
    assert_eq!(t.to_string(), "");
}
