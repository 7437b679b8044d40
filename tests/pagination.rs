use practical_rust_book::error::Error;
use practical_rust_book::pagination::{extract_pagination, Pagination};
use practical_rust_book::query::QueryParams;

fn query(pairs: &[(&str, &str)]) -> QueryParams {
    let mut q = QueryParams::new();
    for (k, v) in pairs {
        q.insert(k.to_string(), v.to_string());
    }
    q
}

#[test]
fn extracts_start_and_end() {
    let p = extract_pagination(query(&[("start", "1"), ("end", "10")])).unwrap();
    assert_eq!(p.start, 1);
    assert_eq!(p.end, 10);
}

#[test]
fn accepts_a_leading_plus_and_zeros() {
    let p = extract_pagination(query(&[("start", "+0"), ("end", "007")])).unwrap();
    assert_eq!(p, Pagination { start: 0, end: 7 });
}

#[test]
fn later_value_of_a_key_wins() {
    let p = extract_pagination(query(&[("start", "4"), ("end", "9"), ("start", "2")])).unwrap();
    assert_eq!(p, Pagination { start: 2, end: 9 });
}

#[test]
fn largest_usize_is_accepted() {
    let max = usize::MAX.to_string();
    let p = extract_pagination(query(&[("start", "0"), ("end", max.as_str())])).unwrap();
    assert_eq!(p.end, usize::MAX);
}

#[test]
fn missing_end_is_missing_parameters() {
    let r = extract_pagination(query(&[("start", "1")]));
    assert!(matches!(r, Err(Error::MissingParameters)));
}

#[test]
fn missing_start_is_missing_parameters() {
    let r = extract_pagination(query(&[("end", "1"), ("limit", "3")]));
    assert!(matches!(r, Err(Error::MissingParameters)));
}

#[test]
fn empty_query_is_missing_parameters() {
    let r = extract_pagination(QueryParams::new());
    assert!(matches!(r, Err(Error::MissingParameters)));
}

#[test]
fn non_numeric_start_is_parse_error() {
    let r = extract_pagination(query(&[("start", "one"), ("end", "10")]));
    assert!(matches!(r, Err(Error::ParseError(_))));
}

#[test]
fn non_numeric_end_is_parse_error() {
    let r = extract_pagination(query(&[("start", "1"), ("end", "10x")]));
    assert!(matches!(r, Err(Error::ParseError(_))));
}

#[test]
fn negative_empty_and_spaced_values_are_parse_errors() {
    for bad in ["-1", "", "+", " 1", "1_000", "1.5"] {
        let r = extract_pagination(query(&[("start", "0"), ("end", bad)]));
        assert!(matches!(r, Err(Error::ParseError(_))), "{:?}", bad);
    }
}

#[test]
fn value_past_usize_is_parse_error() {
    let r = extract_pagination(query(&[("start", "0"), ("end", "184467440737095516160")]));
    assert!(matches!(r, Err(Error::ParseError(_))));
}

#[test]
fn query_params_lookup() {
    let mut q = QueryParams::new();
    assert!(q.is_empty());
    q.insert("a".to_string(), "1".to_string());
    q.insert("a".to_string(), "2".to_string());
    assert!(!q.is_empty());
    assert_eq!(q.get(&"a".to_string()).map(|s| s.as_str()), Some("2"));
    assert!(q.contains_key(&"a".to_string()));
    assert!(!q.contains_key(&"b".to_string()));
}
