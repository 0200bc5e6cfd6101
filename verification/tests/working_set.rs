use subdomain_scanner::hostname::{has_wildcard, Subdomain, Validity, INVALID_REASON};
use subdomain_scanner::working_set::SubdomainSet;

fn raw(names: &[&str]) -> Vec<String> {
    names.iter().map(|name| name.to_string()).collect()
}

fn listed(set: &SubdomainSet) -> Vec<String> {
    set.hosts().iter().map(|host| host.subdomain.clone()).collect()
}

#[test]
fn empty_input_gives_empty_set() {
    let set = SubdomainSet::from_raw(&Vec::new());
    assert_eq!(set.len(), 0);
    assert!(set.is_empty());
    assert!(set.hosts().is_empty());
}

#[test]
fn duplicates_collapse_to_one_entry() {
    let set = SubdomainSet::from_raw(&raw(&["a.example.com", "a.example.com", "a.example.com"]));
    assert_eq!(set.len(), 1);
    assert!(!set.is_empty());
    assert_eq!(listed(&set), raw(&["a.example.com"]));
}

#[test]
fn size_is_the_count_of_distinct_strings() {
    let set = SubdomainSet::from_raw(&raw(&["b", "a", "b", "c", "a", "b"]));
    assert_eq!(set.len(), 3);
    assert_eq!(listed(&set), raw(&["b", "a", "c"]));
}

#[test]
fn size_ignores_order_and_multiplicity() {
    let one = SubdomainSet::from_raw(&raw(&["x", "y", "z"]));
    let other = SubdomainSet::from_raw(&raw(&["z", "z", "y", "x", "y", "x", "x"]));
    assert_eq!(one.len(), 3);
    assert_eq!(other.len(), 3);
    for name in ["x", "y", "z"] {
        assert!(one.contains(&Subdomain::new(name.to_string())));
        assert!(other.contains(&Subdomain::new(name.to_string())));
    }
}

#[test]
fn names_differing_in_case_are_distinct() {
    let set = SubdomainSet::from_raw(&raw(&["A.example.com", "a.example.com"]));
    assert_eq!(set.len(), 2);
}

#[test]
fn wildcard_entries_are_counted_in_the_set() {
    let set = SubdomainSet::from_raw(&raw(&["a.example.com", "a.example.com", "*.example.com"]));
    assert_eq!(set.len(), 2);
    assert!(set.contains(&Subdomain::new("*.example.com".to_string())));
}

#[test]
fn insert_reports_whether_the_name_was_new() {
    let mut set = SubdomainSet::new();
    assert!(set.insert(Subdomain::new("a".to_string())));
    assert!(!set.insert(Subdomain::new("a".to_string())));
    assert!(set.insert(Subdomain::new("b".to_string())));
    assert_eq!(set.len(), 2);
    assert!(set.contains(&Subdomain::new("a".to_string())));
    assert!(!set.contains(&Subdomain::new("c".to_string())));
}

#[test]
fn empty_string_is_a_name_like_any_other() {
    let set = SubdomainSet::from_raw(&raw(&["", "", "a"]));
    assert_eq!(set.len(), 2);
    assert_eq!(listed(&set), raw(&["", "a"]));
}

#[test]
fn star_and_question_mark_are_wildcards() {
    assert!(has_wildcard("*.example.com"));
    assert!(has_wildcard("a?.example.com"));
    assert!(has_wildcard("a.example.com*"));
    assert!(has_wildcard("?"));
    assert!(!has_wildcard("a.example.com"));
    assert!(!has_wildcard(""));
    assert!(!has_wildcard("ünï.example.com"));
}

#[test]
fn validate_rejects_wildcards_with_the_reason() {
    let verdict = Subdomain::new("*.example.com".to_string()).validate();
    assert_eq!(verdict, Validity::Invalid("wildcard/invalid character".to_string()));
    assert_eq!(INVALID_REASON, "wildcard/invalid character");
    let verdict = Subdomain::new("what?.example.com".to_string()).validate();
    assert_eq!(verdict, Validity::Invalid("wildcard/invalid character".to_string()));
}

#[test]
fn validate_accepts_everything_else() {
    for name in ["a.example.com", "", "not a hostname at all", "..", "127.0.0.1", "::1"] {
        assert_eq!(Subdomain::new(name.to_string()).validate(), Validity::Valid);
    }
}

#[test]
fn subdomain_accessors_keep_the_name() {
    let host = Subdomain::new("a.example.com".to_string());
    assert_eq!(host.as_str(), "a.example.com");
    assert_eq!(host.duplicate(), host);
    assert!(host.same_name(&Subdomain::new("a.example.com".to_string())));
    assert!(!host.same_name(&Subdomain::new("b.example.com".to_string())));
}
