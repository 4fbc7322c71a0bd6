use proxy_utils::error::ProxyError;

#[test]
fn cancelled_error_has_kind_and_status() {
    let e = ProxyError::request_cancelled();
    assert!(e.is_cancelled());
    assert_eq!(e.status_code, 499);
    assert_eq!(e.message, "Request cancelled");
    assert!(!e.is_lm_studio_unavailable());
}

#[test]
fn unavailable_error_has_kind_and_status() {
    let e = ProxyError::lm_studio_unavailable("x");
    assert!(e.is_lm_studio_unavailable());
    assert_eq!(e.status_code, 503);
    assert!(!e.is_cancelled());
}

#[test]
fn constructors_fix_status_codes() {
    assert_eq!(ProxyError::internal_server_error("a").status_code, 500);
    assert_eq!(ProxyError::bad_request("b").status_code, 400);
    assert_eq!(ProxyError::not_found("c").status_code, 404);
    assert_eq!(ProxyError::not_implemented("d").status_code, 501);
    assert_eq!(ProxyError::model_loading("e").status_code, 503);
    assert_eq!(ProxyError::new("f".to_string(), 418).status_code, 418);
}

#[test]
fn model_loading_kind_is_detected() {
    assert!(ProxyError::model_loading("anything").is_model_loading());
}

#[test]
fn custom_error_with_loading_text_is_detected() {
    let e = ProxyError::new("upstream said: Service Unavailable".to_string(), 502);
    assert!(e.is_model_loading());
}

#[test]
fn plain_error_is_not_model_loading() {
    let e = ProxyError::bad_request("nice weather today");
    assert!(!e.is_model_loading());
}

#[test]
fn describe_renders_status_and_message() {
    let e = ProxyError::new("oops".to_string(), 502);
    assert_eq!(e.describe(), "ProxyError 502: oops");
}
