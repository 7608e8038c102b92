use vps_lastfm_bot::url_builder::{QueryParams, Url};

#[test]
fn test_basic_url() {
    let url = Url::new("https://www.google.com");
    assert_eq!(url.build(), "https://www.google.com");
}

#[test]
fn test_single_query_param() {
    let mut params = QueryParams::new();
    params.insert("q".to_string(), "rust".to_string());

    let url = Url::new("https://www.google.com").add_args(params);
    assert_eq!(url.build(), "https://www.google.com?q=rust");
}

#[test]
fn test_multiple_query_params() {
    let mut params = QueryParams::new();
    params.insert("q".to_string(), "rust".to_string());
    params.insert("lang".to_string(), "en".to_string());

    let url = Url::new("https://www.google.com").add_args(params);
    let built_url = url.build();
    assert!(
        built_url == "https://www.google.com?q=rust&lang=en"
            || built_url == "https://www.google.com?lang=en&q=rust"
    );
}

#[test]
fn test_chained_param_addition() {
    let url = Url::new("https://www.example.com")
        .add_args(QueryParams::from_pairs(vec![("page".to_string(), "1".to_string())]))
        .add_args(QueryParams::from_pairs(vec![("limit".to_string(), "10".to_string())]));

    let built_url = url.build();
    assert!(
        built_url == "https://www.example.com?page=1&limit=10"
            || built_url == "https://www.example.com?limit=10&page=1"
    );
}

#[test]
fn test_param_overwrite() {
    let mut params1 = QueryParams::new();
    params1.insert("key".to_string(), "value1".to_string());

    let mut params2 = QueryParams::new();
    params2.insert("key".to_string(), "value2".to_string());

    let url = Url::new("https://www.example.com")
        .add_args(params1)
        .add_args(params2);

    assert_eq!(url.build(), "https://www.example.com?key=value2");
}

#[test]
fn parameters_keep_insertion_order() {
    let mut params = QueryParams::new();
    params.insert("b".to_string(), "2".to_string());
    params.insert("a".to_string(), "1".to_string());
    params.insert("b".to_string(), "3".to_string());
    assert_eq!(params.len(), 2);
    let url = Url::new("http://x").add_args(params);
    assert_eq!(url.build(), "http://x?b=3&a=1");
}

#[test]
fn empty_parameters_leave_base_alone() {
    let url = Url::new("http://x").add_args(QueryParams::new());
    assert_eq!(url.build(), "http://x");
    assert!(QueryParams::from_pairs(vec![]).is_empty());
}

#[test]
fn later_pair_overrides_within_one_batch() {
    let params = QueryParams::from_pairs(vec![
        ("k".to_string(), "1".to_string()),
        ("j".to_string(), "2".to_string()),
        ("k".to_string(), "3".to_string()),
    ]);
    let url = Url::new("u").add_args(params);
    assert_eq!(url.build(), "u?k=3&j=2");
}
