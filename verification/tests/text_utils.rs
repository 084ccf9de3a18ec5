use ferrisfleet::text::{decimal_string, indexed_name, str_contains, str_eq};

#[test]
fn decimal_string_exact_values() {
    assert_eq!(decimal_string(0), "0");
    assert_eq!(decimal_string(7), "7");
    assert_eq!(decimal_string(10), "10");
    assert_eq!(decimal_string(42), "42");
    assert_eq!(decimal_string(100), "100");
    assert_eq!(decimal_string(90210), "90210");
}

#[test]
fn indexed_name_builds_node_names() {
    assert_eq!(indexed_name("demo", "-cp-", 0), "demo-cp-0");
    assert_eq!(indexed_name("demo", "-worker-", 11), "demo-worker-11");
    assert_eq!(indexed_name("", "-cp-", 3), "-cp-3");
}

#[test]
fn str_eq_compares_by_characters() {
    assert!(str_eq("", ""));
    assert!(str_eq("running", "running"));
    assert!(!str_eq("running", "runnin"));
    assert!(!str_eq("running", "Running"));
    assert!(!str_eq("", "x"));
}

#[test]
fn str_contains_finds_substrings() {
    assert!(str_contains("demo-cp-0", "cp"));
    assert!(str_contains("master", "master"));
    assert!(str_contains("anything", ""));
    assert!(!str_contains("demo-worker-0", "cp"));
    assert!(!str_contains("c", "cp"));
    assert!(!str_contains("", "cp"));
    assert!(str_contains("xxcontrolyy", "control"));
}
