use pigeon::models::headers::{add_capped, Headers};

#[test]
fn an_empty_collection_holds_nothing() {
    let headers = Headers::new();
    assert_eq!(headers.len(), 0);
    assert_eq!(headers.get("a"), None);
    assert_eq!(headers.position(""), None);
    assert_eq!(headers.size(), 0);
}

#[test]
fn a_new_name_goes_to_the_end() {
    let mut headers = Headers::new();
    headers.insert("b".to_string(), "2".to_string());
    headers.insert("a".to_string(), "1".to_string());
    headers.insert("".to_string(), "0".to_string());
    assert_eq!(headers.len(), 3);
    assert_eq!(headers.position("b"), Some(0));
    assert_eq!(headers.position("a"), Some(1));
    assert_eq!(headers.position(""), Some(2));
    assert_eq!(headers.name_at(2), "");
    assert_eq!(headers.value_at(2), "0");
}

#[test]
fn a_held_name_keeps_its_place_and_takes_the_new_value() {
    let mut headers = Headers::new();
    headers.insert("a".to_string(), "1".to_string());
    headers.insert("b".to_string(), "2".to_string());
    headers.insert("a".to_string(), "3".to_string());
    assert_eq!(headers.len(), 2);
    assert_eq!(headers.position("a"), Some(0));
    assert_eq!(headers.get("a").map(|value| value.as_str()), Some("3"));
    assert_eq!(headers.get("b").map(|value| value.as_str()), Some("2"));
}

#[test]
fn names_differ_by_case() {
    let mut headers = Headers::new();
    headers.insert("Key".to_string(), "upper".to_string());
    headers.insert("key".to_string(), "lower".to_string());
    assert_eq!(headers.len(), 2);
    assert_eq!(headers.get("Key").map(|value| value.as_str()), Some("upper"));
    assert_eq!(headers.get("key").map(|value| value.as_str()), Some("lower"));
    assert_eq!(headers.get("KEY"), None);
}

#[test]
fn the_size_adds_up_the_bytes_of_names_and_values() {
    let mut headers = Headers::new();
    headers.insert("abc".to_string(), "de".to_string());
    assert_eq!(headers.size(), 5);
    headers.insert("\u{e9}".to_string(), "\u{1f600}".to_string());
    assert_eq!(headers.size(), 5 + 2 + 4);
    headers.insert("abc".to_string(), "".to_string());
    assert_eq!(headers.size(), 3 + 2 + 4);
}

#[test]
fn capped_sums_stop_at_the_greatest_count() {
    assert_eq!(add_capped(2, 3), 5);
    assert_eq!(add_capped(usize::MAX, 0), usize::MAX);
    assert_eq!(add_capped(usize::MAX, 1), usize::MAX);
    assert_eq!(add_capped(usize::MAX - 1, 1), usize::MAX);
    assert_eq!(add_capped(usize::MAX / 2 + 1, usize::MAX / 2 + 1), usize::MAX);
}
