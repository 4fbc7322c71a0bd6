use proxy_utils::request::extract_client_ip;
use proxy_utils::request::is_protected_endpoint;
use proxy_utils::request::Headers;

fn headers(pairs: &[(&str, &str)]) -> Headers {
    let mut h = Headers::new();
    for (name, value) in pairs {
        h.add(name.to_string(), value.to_string());
    }
    h
}

#[test]
fn forwarded_for_takes_first_entry() {
    let h = headers(&[("x-forwarded-for", "10.0.0.1, 10.0.0.2")]);
    assert_eq!(extract_client_ip(&h), Some("10.0.0.1".to_string()));
}

#[test]
fn empty_value_yields_nothing() {
    let h = headers(&[("x-real-ip", "")]);
    assert_eq!(extract_client_ip(&h), None);
}

#[test]
fn irrelevant_headers_yield_nothing() {
    let h = headers(&[("user-agent", "curl"), ("host", "example.com")]);
    assert_eq!(extract_client_ip(&h), None);
    assert_eq!(extract_client_ip(&Headers::new()), None);
}

#[test]
fn header_order_is_fixed() {
    let h = headers(&[("cf-connecting-ip", "2.2.2.2"), ("x-real-ip", "1.1.1.1")]);
    assert_eq!(extract_client_ip(&h), Some("1.1.1.1".to_string()));
}

#[test]
fn empty_earlier_header_falls_through() {
    let h = headers(&[("x-forwarded-for", "  "), ("x-client-ip", "3.3.3.3")]);
    assert_eq!(extract_client_ip(&h), Some("3.3.3.3".to_string()));
}

#[test]
fn value_is_trimmed() {
    let h = headers(&[("x-forwarded-for", "  7.7.7.7\t , 8.8.8.8")]);
    assert_eq!(extract_client_ip(&h), Some("7.7.7.7".to_string()));
}

#[test]
fn protected_endpoints_match_exactly() {
    assert!(is_protected_endpoint("/admin/*"));
    assert!(is_protected_endpoint("/config/*"));
    assert!(!is_protected_endpoint("/admin/users"));
    assert!(!is_protected_endpoint("/v1/models"));
    assert!(!is_protected_endpoint(""));
}
