use ferinth::query::{
    array_query_value, bool_query_value, list_versions_query, loaders_query_value,
};
use ferinth::structures::{ListVersionsParams, ModLoader};

fn strings(v: &[&str]) -> Vec<String> {
    v.iter().map(|s| s.to_string()).collect()
}

#[test]
fn loaders_value_single() {
    assert_eq!(loaders_query_value(&vec![ModLoader::Fabric]), "[\"fabric\"]");
}

#[test]
fn loaders_value_several_in_order() {
    assert_eq!(
        loaders_query_value(&vec![ModLoader::Forge, ModLoader::Fabric]),
        "[\"forge\",\"fabric\"]"
    );
}

#[test]
fn game_versions_value() {
    assert_eq!(
        array_query_value(&strings(&["1.20", "1.20.1"])),
        "[\"1.20\",\"1.20.1\"]"
    );
}

#[test]
fn array_value_empty() {
    assert_eq!(array_query_value(&Vec::new()), "[]");
}

#[test]
fn array_value_escapes_quote_and_backslash() {
    assert_eq!(
        array_query_value(&strings(&["a\"b", "c\\d"])),
        "[\"a\\\"b\",\"c\\\\d\"]"
    );
}

#[test]
fn featured_value() {
    assert_eq!(bool_query_value(true), "true");
    assert_eq!(bool_query_value(false), "false");
}

#[test]
fn no_filters_no_pairs() {
    let p = ListVersionsParams {
        loaders: None,
        game_versions: None,
        featured: None,
    };
    assert!(list_versions_query(&p).is_empty());
}

#[test]
fn all_filters_in_order() {
    let p = ListVersionsParams {
        loaders: Some(vec![ModLoader::Fabric]),
        game_versions: Some(strings(&["1.20"])),
        featured: Some(true),
    };
    let q = list_versions_query(&p);
    assert_eq!(
        q,
        vec![
            ("loaders".to_string(), "[\"fabric\"]".to_string()),
            ("game_versions".to_string(), "[\"1.20\"]".to_string()),
            ("featured".to_string(), "true".to_string()),
        ]
    );
}
