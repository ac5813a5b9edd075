use load_balancer::http_client::request::RequestHeaders;

#[test]
fn missing_header_resolves_to_none() {
    let headers = RequestHeaders::default();
    assert_eq!(headers.len(), 0);
    assert_eq!(headers.get("content-type"), None);
}

#[test]
fn inserted_headers_are_found_again() {
    let mut headers = RequestHeaders::default();
    headers.insert("content-type".to_string(), "application/json".to_string());
    headers.insert("x-custom-header".to_string(), "custom-value".to_string());

    assert_eq!(headers.len(), 2);
    assert_eq!(headers.get("content-type"), Some(&"application/json".to_string()));
    assert_eq!(headers.get("x-custom-header"), Some(&"custom-value".to_string()));
    assert_eq!(headers.get("invalid-header"), None);
}

#[test]
fn inserting_again_overwrites_the_value() {
    let mut headers = RequestHeaders::default();
    headers.insert("x-request-id".to_string(), "first".to_string());
    headers.insert("x-request-id".to_string(), "second".to_string());

    assert_eq!(headers.len(), 1);
    assert_eq!(headers.get("x-request-id"), Some(&"second".to_string()));
}

#[test]
fn collecting_pairs_keeps_the_last_duplicate() {
    let pairs = vec![
        ("accept".to_string(), "text/plain".to_string()),
        ("x-id".to_string(), "one".to_string()),
        ("x-id".to_string(), "two".to_string()),
    ];

    let headers = RequestHeaders::from_pairs(&pairs);

    assert_eq!(headers.get("accept"), Some(&"text/plain".to_string()));
    assert_eq!(headers.get("x-id"), Some(&"two".to_string()));
    assert_eq!(headers.len(), 2);
}
