use dsa_spec::assertion::{parse_assert_bang, parse_assert_eq, split_assert_eq_args};

#[test]
fn test_parse_assert_bang_simple() {
    assert_eq!(parse_assert_bang("assert!(true)"), Some("true"));
}

#[test]
fn test_parse_assert_bang_with_expr() {
    assert_eq!(
        parse_assert_bang("assert!(avl.contains(2))"),
        Some("avl.contains(2)")
    );
}

#[test]
fn test_parse_assert_bang_no_match() {
    assert_eq!(parse_assert_bang("assert_eq!(a, b)"), None);
    assert_eq!(parse_assert_bang("x = 1"), None);
}

#[test]
fn test_parse_assert_eq_simple() {
    assert_eq!(parse_assert_eq("assert_eq!(a, b)"), Some(("a", "b")));
}

#[test]
fn test_parse_assert_eq_with_parens() {
    assert_eq!(
        parse_assert_eq("assert_eq!(avl.height(), 2)"),
        Some(("avl.height()", "2"))
    );
}

#[test]
fn test_parse_assert_eq_with_vec() {
    assert_eq!(
        parse_assert_eq("assert_eq!(avl.inorder(), vec![1, 2, 3])"),
        Some(("avl.inorder()", "vec![1, 2, 3]"))
    );
}

#[test]
fn test_parse_assert_eq_no_match() {
    assert_eq!(parse_assert_eq("assert!(x)"), None);
    assert_eq!(parse_assert_eq("x == 1"), None);
}

#[test]
fn test_split_assert_eq_args_no_comma() {
    assert_eq!(split_assert_eq_args("single"), None);
}

#[test]
fn test_split_assert_eq_args_nested_parens() {
    assert_eq!(
        split_assert_eq_args("f(a, b), g(c, d)"),
        Some(("f(a, b)", " g(c, d)"))
    );
}
