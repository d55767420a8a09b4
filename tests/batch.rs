use abi_converter::batch::{is_glob_pattern, Action, Driver};
use abi_converter::convert::{convert_text, ConvertError};

fn strings(v: &[&str]) -> Vec<String> {
    v.iter().map(|s| s.to_string()).collect()
}

fn expect_convert(d: &Driver, path: &str) {
    match d.next_action() {
        Action::Convert(p) => assert_eq!(p, path),
        _ => panic!("expected a conversion of {}", path),
    }
}

fn expect_finish(d: &Driver, code: i32) {
    match d.next_action() {
        Action::Finish(c) => assert_eq!(c, code),
        _ => panic!("expected the end"),
    }
}

#[test]
fn wildcard_detection() {
    assert!(is_glob_pattern("*.json"));
    assert!(is_glob_pattern("abi?.json"));
    assert!(is_glob_pattern("dir/*/x.json"));
    assert!(!is_glob_pattern("a.json"));
    assert!(!is_glob_pattern("[a].json"));
    assert!(!is_glob_pattern(""));
}

#[test]
fn batch_partial_failure() {
    let mut d = Driver::new(strings(&["a.json", "missing.json"]));
    expect_convert(&d, "a.json");
    let m = convert_text("a.json", "{\"abi\": []}").unwrap();
    assert_eq!(m.file_name, "a.ts");
    d.converted(true);
    expect_convert(&d, "missing.json");
    let err = ConvertError::Read { path: "missing.json".to_string(), cause: "No such file".to_string() };
    assert!(err.message().contains("missing.json"));
    d.converted(false);
    expect_finish(&d, 1);
    assert_eq!(d.converted_count(), 1);
    assert_eq!(d.failed_count(), 1);
}

#[test]
fn glob_expansion_converts_each_file() {
    let mut d = Driver::new(strings(&["*.json"]));
    match d.next_action() {
        Action::Expand(p) => assert_eq!(p, "*.json"),
        _ => panic!("expected an expansion"),
    }
    d.expanded(Some(strings(&["x.json", "y.json"])));
    expect_convert(&d, "x.json");
    assert!(convert_text("x.json", "{not json").is_err());
    d.converted(false);
    expect_convert(&d, "y.json");
    assert!(convert_text("y.json", "[1]").is_ok());
    d.converted(true);
    expect_finish(&d, 1);
    assert_eq!(d.converted_count(), 1);
    assert_eq!(d.failed_count(), 1);
}

#[test]
fn invalid_glob_counts_one_failure() {
    let mut d = Driver::new(strings(&["[*.json", "b.json"]));
    d.expanded(None);
    assert_eq!(d.failed_count(), 1);
    expect_convert(&d, "b.json");
    d.converted(true);
    expect_finish(&d, 1);
}

#[test]
fn empty_expansion_moves_on() {
    let mut d = Driver::new(strings(&["*.none", "c.json"]));
    d.expanded(Some(Vec::new()));
    expect_convert(&d, "c.json");
    d.converted(true);
    expect_finish(&d, 0);
    assert_eq!(d.converted_count(), 1);
}

#[test]
fn no_patterns_exit_zero() {
    let d = Driver::new(Vec::new());
    expect_finish(&d, 0);
    assert_eq!(d.converted_count(), 0);
    assert_eq!(d.failed_count(), 0);
    assert!(d.has_room());
}

#[test]
fn patterns_keep_their_order() {
    let mut d = Driver::new(strings(&["b.json", "a?.json", "c.json"]));
    expect_convert(&d, "b.json");
    d.converted(true);
    match d.next_action() {
        Action::Expand(p) => assert_eq!(p, "a?.json"),
        _ => panic!("expected an expansion"),
    }
    d.expanded(Some(strings(&["a1.json"])));
    expect_convert(&d, "a1.json");
    d.converted(true);
    expect_convert(&d, "c.json");
    d.converted(true);
    expect_finish(&d, 0);
    assert_eq!(d.converted_count(), 3);
}
