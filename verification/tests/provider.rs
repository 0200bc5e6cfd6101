use serde_json::Value;
use subdomain_scanner::cli::{
    domain_argument, usage_lines, CliError, USAGE_EXAMPLE, USAGE_EXIT_STATUS, USAGE_HEADLINE,
    USAGE_LABEL,
};
use subdomain_scanner::provider::{collect_names, query_url, raw_hostnames, ProviderError, NAME_FIELD};
use subdomain_scanner::report::Stream;

fn entries(json: &str) -> Vec<Value> {
    serde_json::from_str(json).unwrap()
}

fn strings(names: &[&str]) -> Vec<String> {
    names.iter().map(|name| name.to_string()).collect()
}

#[test]
fn query_url_wraps_the_domain() {
    assert_eq!(query_url("example.com"), "https://crt.sh/?q=%25.example.com&output=json");
    assert_eq!(query_url(""), "https://crt.sh/?q=%25.&output=json");
}

#[test]
fn names_are_read_in_order_with_duplicates() {
    let names = raw_hostnames(&entries(
        r#"[{"name_value": "a.example.com", "id": 1},
            {"id": 2, "name_value": "*.example.com"},
            {"name_value": "a.example.com"}]"#,
    ));
    assert_eq!(names, Ok(strings(&["a.example.com", "*.example.com", "a.example.com"])));
    assert_eq!(NAME_FIELD, "name_value");
}

#[test]
fn other_members_are_not_mistaken_for_the_name() {
    let names = raw_hostnames(&entries(
        r#"[{"common_name": "wrong.example.com", "name_value": "right.example.com"}]"#,
    ));
    assert_eq!(names, Ok(strings(&["right.example.com"])));
}

#[test]
fn no_entries_give_no_names() {
    assert_eq!(raw_hostnames(&Vec::new()), Ok(Vec::new()));
}

#[test]
fn entry_without_the_name_fails_the_list() {
    let names = raw_hostnames(&entries(
        r#"[{"name_value": "a.example.com"}, {"common_name": "b.example.com"}, {}]"#,
    ));
    assert_eq!(names, Err(ProviderError::MissingName { entry: 1 }));
}

#[test]
fn name_that_is_no_string_is_missing() {
    for json in [
        r#"[{"name_value": 7}]"#,
        r#"[{"name_value": null}]"#,
        r#"[{"name_value": ["a.example.com"]}]"#,
        r#"[{"name_value": {"name_value": "a.example.com"}}]"#,
    ] {
        assert_eq!(raw_hostnames(&entries(json)), Err(ProviderError::MissingName { entry: 0 }));
    }
}

#[test]
fn entry_that_is_no_object_is_missing() {
    for json in [r#"["name_value"]"#, r#"[["name_value", "a"]]"#, r#"[3]"#, r#"[null]"#] {
        assert_eq!(raw_hostnames(&entries(json)), Err(ProviderError::MissingName { entry: 0 }));
    }
}

#[test]
fn collect_names_keeps_all_or_names_the_first_gap() {
    assert_eq!(collect_names(&Vec::new()), Ok(Vec::new()));
    assert_eq!(
        collect_names(&vec![Some("a".to_string()), Some("b".to_string())]),
        Ok(strings(&["a", "b"]))
    );
    assert_eq!(
        collect_names(&vec![Some("a".to_string()), None, Some("b".to_string()), None]),
        Err(ProviderError::MissingName { entry: 1 })
    );
    assert_eq!(collect_names(&vec![None]), Err(ProviderError::MissingName { entry: 0 }));
}

#[test]
fn domain_is_the_first_argument() {
    assert_eq!(domain_argument(&strings(&["scan", "example.com"])), Ok("example.com".to_string()));
    assert_eq!(
        domain_argument(&strings(&["scan", "example.com", "ignored"])),
        Ok("example.com".to_string())
    );
}

#[test]
fn missing_argument_is_refused_with_usage_and_status_one() {
    assert_eq!(domain_argument(&strings(&["scan"])), Err(CliError::MissingDomain));
    assert_eq!(domain_argument(&Vec::new()), Err(CliError::MissingDomain));
    assert_eq!(USAGE_EXIT_STATUS, 1);
    let lines = usage_lines();
    let texts: Vec<&str> = lines.iter().map(|line| line.text.as_str()).collect();
    assert_eq!(
        texts,
        vec!["Missing Domain as first parameter", "Usage:", "cargo run -- \"example.com\""]
    );
    assert!(lines.iter().all(|line| line.stream == Stream::Standard));
    assert_eq!(USAGE_HEADLINE, "Missing Domain as first parameter");
    assert_eq!(USAGE_LABEL, "Usage:");
    assert_eq!(USAGE_EXAMPLE, "cargo run -- \"example.com\"");
}
