use mmdb_grpc::names::filter_locales;
use std::collections::{BTreeMap, HashMap, HashSet};

fn owned(src: &BTreeMap<&str, &str>) -> Vec<(String, String)> {
    src.iter().map(|(k, v)| (k.to_string(), v.to_string())).collect()
}

fn as_map(v: Vec<(String, String)>) -> HashMap<String, String> {
    v.into_iter().collect()
}

#[test]
fn test_filter_locales() {
    let mut src = BTreeMap::new();
    src.insert("1", "one");
    src.insert("2", "two");
    src.insert("3", "three");
    src.insert("4", "four");

    let mut filters = HashSet::new();
    filters.insert("11".to_string());
    filters.insert("2".to_string());
    filters.insert("3".to_string());
    let actual = filter_locales(&owned(&src), &filters.into_iter().collect());

    let mut expected = HashMap::new();
    expected.insert("2".to_string(), "two".to_string());
    expected.insert("3".to_string(), "three".to_string());
    assert_eq!(as_map(actual), expected);

    let filters: HashSet<String> = HashSet::new();
    let actual = filter_locales(&owned(&src), &filters.into_iter().collect());

    let mut expected = HashMap::new();
    expected.insert("1".to_string(), "one".to_string());
    expected.insert("2".to_string(), "two".to_string());
    expected.insert("3".to_string(), "three".to_string());
    expected.insert("4".to_string(), "four".to_string());
    assert_eq!(as_map(actual), expected);
}

fn pairs(xs: &[(&str, &str)]) -> Vec<(String, String)> {
    xs.iter().map(|(k, v)| (k.to_string(), v.to_string())).collect()
}

fn codes(xs: &[&str]) -> Vec<String> {
    xs.iter().map(|s| s.to_string()).collect()
}

#[test]
fn empty_locale_set_keeps_every_name_in_order() {
    let names = pairs(&[("en", "Testville"), ("ja", "テスト市"), ("de", "Testdorf")]);
    assert_eq!(filter_locales(&names, &Vec::new()), names);
}

#[test]
fn filtered_names_are_requested_codes_of_the_source() {
    let names = pairs(&[("en", "Testville"), ("ja", "テスト市"), ("de", "Testdorf")]);
    let wanted = codes(&["ja", "fr", "de"]);
    let out = filter_locales(&names, &wanted);
    assert_eq!(out, pairs(&[("ja", "テスト市"), ("de", "Testdorf")]));
    for (k, _) in &out {
        assert!(wanted.contains(k));
        assert!(names.iter().any(|(n, _)| n == k));
    }
    assert!(!out.iter().any(|(k, _)| k == "en"));
}

#[test]
fn unmatched_locale_gives_empty_names() {
    let names = pairs(&[("en", "Testville"), ("ja", "テスト市")]);
    assert!(filter_locales(&names, &codes(&["fr"])).is_empty());
}

#[test]
fn empty_names_stay_empty() {
    assert!(filter_locales(&Vec::new(), &codes(&["en"])).is_empty());
    assert!(filter_locales(&Vec::new(), &Vec::new()).is_empty());
}

#[test]
fn repeated_requested_code_keeps_one_entry() {
    let names = pairs(&[("en", "Testville"), ("ja", "テスト市")]);
    assert_eq!(filter_locales(&names, &codes(&["en", "en"])), pairs(&[("en", "Testville")]));
}
