use dsa_spec::template_engine::sanitize_filename;

#[test]
fn test_sanitize_filename_passes_through_safe_names() {
    assert_eq!(sanitize_filename("MyStruct"), "MyStruct");
    assert_eq!(sanitize_filename("foo_bar"), "foo_bar");
    assert_eq!(sanitize_filename("abc123"), "abc123");
}

#[test]
fn test_sanitize_filename_replaces_invalid_chars() {
    assert_eq!(sanitize_filename("a/b:c"), "a_b_c");
    assert_eq!(sanitize_filename("x<y>z"), "x_y_z");
    assert_eq!(sanitize_filename("a|b?c*d"), "a_b_c_d");
}

#[test]
fn test_sanitize_filename_strips_trailing_dots_and_spaces() {
    assert_eq!(sanitize_filename("foo."), "foo");
    assert_eq!(sanitize_filename(" bar "), "bar");
    assert_eq!(sanitize_filename(".baz."), "baz");
}

#[test]
fn test_sanitize_filename_empty_returns_underscore() {
    assert_eq!(sanitize_filename(""), "_");
    assert_eq!(sanitize_filename("..."), "_");
    assert_eq!(sanitize_filename("   "), "_");
}
