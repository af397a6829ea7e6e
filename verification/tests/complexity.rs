use dsa_spec::ast::{Complexity, Metadata, Spec};
use dsa_spec::complexity::{
    complexity_to_ordinal, generate_json_report, generate_report, generate_tradeoff_chart,
    load_outcome,
};
use dsa_spec::error::SpecError;

fn make_spec(name: &str, category: &str, time: Option<&str>, space: Option<&str>) -> Spec {
    Spec {
        spec_version: "1.0".into(),
        metadata: Metadata {
            name: name.into(),
            category: category.into(),
            complexity: Complexity {
                time: time.map(String::from),
                space: space.map(String::from),
            },
            tags: vec![],
        },
        ..Default::default()
    }
}

fn ordinal(s: &str) -> Option<f64> {
    complexity_to_ordinal(s).map(|h| h as f64 / 100.0)
}

#[test]
fn test_generate_report_empty() {
    let report = generate_report(&[]);
    assert!(report.contains("| DSA | Category |"));
    assert!(report.contains("|---|---|---|"));
    // Header + separator (trailing newline doesn't add a line)
    assert_eq!(report.lines().count(), 2);
}

#[test]
fn test_generate_report_single_spec() {
    let spec = make_spec("BST", "trees", Some("O(log n)"), Some("O(n)"));
    let report = generate_report(&[spec]);
    assert!(report.contains("| BST | trees | O(log n) | O(n) |"));
}

#[test]
fn test_generate_report_multiple_categories() {
    let specs = vec![
        make_spec("Quicksort", "sorting", Some("O(n log n)"), Some("O(log n)")),
        make_spec("BST", "trees", Some("O(log n)"), Some("O(n)")),
    ];
    let report = generate_report(&specs);
    let bst_pos = report.find("BST").unwrap();
    let qsort_pos = report.find("Quicksort").unwrap();
    // Quicksort (sorting) should appear before BST (trees) alphabetically: 's' < 't'
    assert!(qsort_pos < bst_pos);
}

#[test]
fn test_generate_report_missing_complexity() {
    let spec = make_spec("Unknown", "misc", None, None);
    let report = generate_report(&[spec]);
    assert!(report.contains("| Unknown | misc | N/A | N/A |"));
}

#[test]
fn test_generate_json() {
    let specs = vec![make_spec("BST", "trees", Some("O(log n)"), Some("O(n)"))];
    let json = generate_json_report(&specs);
    assert!(json.contains("\"name\": \"BST\""));
    assert!(json.contains("\"time\": \"O(log n)\""));
    // A JSON array should start with [
    assert!(json.trim_start().starts_with('['));
}

#[test]
fn test_complexity_to_ordinal_known_values() {
    assert_eq!(ordinal("O(1)"), Some(0.05));
    assert_eq!(ordinal("O(log n)"), Some(0.2));
    assert_eq!(ordinal("O(n)"), Some(0.4));
    assert_eq!(ordinal("O(n log n)"), Some(0.6));
    assert_eq!(ordinal("O(n^2)"), Some(0.8));
    assert_eq!(ordinal("O(2^n)"), Some(0.95));
    assert_eq!(ordinal("O(V+E)"), Some(0.55));
}

#[test]
fn test_complexity_to_ordinal_unknown_returns_none() {
    assert_eq!(ordinal(""), None);
    assert_eq!(ordinal("unknown"), None);
    assert_eq!(ordinal("O(foo)"), None);
}

#[test]
fn test_generate_chart_basic() {
    let specs = vec![make_spec("BST", "trees", Some("O(log n)"), Some("O(n)"))];
    let chart = generate_tradeoff_chart(&specs);
    assert!(chart.contains("quadrantChart"));
    assert!(chart.contains("BST"));
    // Should contain numeric coordinates
    assert!(chart.contains("0.2"));
    assert!(chart.contains("0.4"));
}

#[test]
fn test_generate_chart_skips_unparseable() {
    let specs = vec![
        make_spec("Valid", "a", Some("O(1)"), Some("O(1)")),
        make_spec("SkipMe", "b", Some("???"), Some("???")),
    ];
    let chart = generate_tradeoff_chart(&specs);
    assert!(chart.contains("Valid"));
    assert!(!chart.contains("SkipMe"));
}

#[test]
fn test_generate_json_empty() {
    let json = generate_json_report(&[]);
    assert_eq!(json, "[]");
}

#[test]
fn report_sorts_by_category_then_name() {
    let specs = vec![
        make_spec("Zeta", "trees", None, None),
        make_spec("Alpha", "trees", Some("O(1)"), None),
        make_spec("Heap", "heaps", None, Some("O(n)")),
    ];
    let report = generate_report(&specs);
    assert_eq!(
        report,
        "| DSA | Category | Time Complexity | Space Complexity |\n|---|---|---|---|\n\
| Heap | heaps | N/A | O(n) |\n| Alpha | trees | O(1) | N/A |\n| Zeta | trees | N/A | N/A |\n"
    );
}

#[test]
fn report_keeps_equal_keys_in_input_order() {
    let specs = vec![
        make_spec("Same", "c", Some("first"), None),
        make_spec("Same", "c", Some("second"), None),
    ];
    let report = generate_report(&specs);
    let first = report.find("first").unwrap();
    let second = report.find("second").unwrap();
    assert!(first < second);
}

#[test]
fn ordinal_exact_values() {
    assert_eq!(complexity_to_ordinal("O(1)"), Some(5));
    assert_eq!(complexity_to_ordinal("  O(N LOG N)  "), Some(60));
    assert_eq!(complexity_to_ordinal("quadratic"), Some(80));
    assert_eq!(complexity_to_ordinal("O(2\u{207f})"), Some(95));
    assert_eq!(complexity_to_ordinal("O(n\u{b2})"), Some(80));
    assert_eq!(complexity_to_ordinal("O(V + E)"), Some(55));
    assert_eq!(complexity_to_ordinal("O(E log V)"), Some(55));
    assert_eq!(complexity_to_ordinal("linear"), Some(40));
    assert_eq!(complexity_to_ordinal("constant"), Some(5));
}

#[test]
fn chart_exact_text() {
    let specs = vec![
        make_spec("BST", "trees", Some("O(log n)"), Some("O(n)")),
        make_spec("Hash", "maps", Some("O(1)"), Some("O(n)")),
        make_spec("Half", "maps", Some("O(1)"), None),
    ];
    let chart = generate_tradeoff_chart(&specs);
    let expected = "```mermaid\nquadrantChart\n    title Time vs Space Complexity\n    \
x-axis \"Fast Time\" --> \"Slow Time\"\n    y-axis \"Low Memory\" --> \"High Memory\"\n    \
quadrant-1 \"Ideal\"\n    quadrant-2 \"Memory Heavy\"\n    quadrant-3 \"Slow & Heavy\"\n    \
quadrant-4 \"Time Heavy\"\n    \"BST\": [0.2, 0.4]\n    \"Hash\": [0.05, 0.4]\n```";
    assert_eq!(chart, expected);
}

#[test]
fn json_report_exact_text() {
    let specs = vec![make_spec("BST", "trees", Some("O(log n)"), None)];
    let json = generate_json_report(&specs);
    assert_eq!(
        json,
        "[\n  {\n    \"category\": \"trees\",\n    \"name\": \"BST\",\n    \"space\": null,\n    \"time\": \"O(log n)\"\n  }\n]"
    );
}

#[test]
fn load_outcome_cases() {
    let err = || SpecError::IoError {
        message: "bad".into(),
    };
    let spec = make_spec("A", "b", None, None);
    assert!(matches!(load_outcome(vec![], vec![err()]), Err(v) if v.len() == 1));
    assert!(matches!(load_outcome(vec![spec.clone()], vec![err()]), Ok(v) if v.len() == 1));
    assert!(matches!(load_outcome(vec![], vec![]), Ok(v) if v.is_empty()));
}
