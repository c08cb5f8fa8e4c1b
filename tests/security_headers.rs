use cell_api_auth::security_headers::SecurityHeaders;

#[test]
fn test_security_headers_default() {
    let _headers = SecurityHeaders::default();
    assert!(true);
}

fn value_of<'a>(headers: &'a [(String, String)], name: &str) -> Vec<&'a str> {
    headers.iter().filter(|(n, _)| n == name).map(|(_, v)| v.as_str()).collect()
}

#[test]
fn stamps_fixed_set_and_keeps_other_headers() {
    let mut headers = vec![
        ("content-type".to_string(), "application/json".to_string()),
        ("x-frame-options".to_string(), "SAMEORIGIN".to_string()),
        ("cache-control".to_string(), "max-age=60".to_string()),
    ];
    SecurityHeaders::new().apply(&mut headers);
    assert_eq!(value_of(&headers, "content-type"), vec!["application/json"]);
    assert_eq!(value_of(&headers, "x-frame-options"), vec!["DENY"]);
    assert_eq!(
        value_of(&headers, "cache-control"),
        vec!["no-store, no-cache, must-revalidate, private"]
    );
    assert_eq!(
        value_of(&headers, "strict-transport-security"),
        vec!["max-age=31536000; includeSubDomains"]
    );
    assert_eq!(value_of(&headers, "x-content-type-options"), vec!["nosniff"]);
    assert_eq!(value_of(&headers, "x-xss-protection"), vec!["0"]);
    assert_eq!(value_of(&headers, "referrer-policy"), vec!["strict-origin-when-cross-origin"]);
    assert_eq!(
        value_of(&headers, "permissions-policy"),
        vec!["geolocation=(), microphone=(), camera=()"]
    );
    assert_eq!(value_of(&headers, "pragma"), vec!["no-cache"]);
    assert_eq!(headers.len(), 10);
}

#[test]
fn stamping_an_empty_response_gives_the_set() {
    let mut headers = Vec::new();
    SecurityHeaders::new().apply(&mut headers);
    assert_eq!(headers, SecurityHeaders::header_set());
    assert_eq!(headers.len(), 9);
    assert_eq!(
        value_of(&headers, "content-security-policy"),
        vec!["default-src 'none'; frame-ancestors 'none'; base-uri 'none'; form-action 'none'"]
    );
}
