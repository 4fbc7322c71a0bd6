use proxy_utils::classify::classify_model_loading_error;
use proxy_utils::classify::is_model_loading_error;
use proxy_utils::classify::is_probable_model_loading_by_timing;
use proxy_utils::classify::ModelLoadingErrorType;

#[test]
fn explicit_phrase_is_detected() {
    assert!(is_model_loading_error("Model is loading"));
    assert!(is_model_loading_error("The model is loading, please wait"));
    assert!(is_model_loading_error("loading model weights from disk"));
    assert!(is_model_loading_error("Warming up model"));
    assert!(is_model_loading_error("model not ready yet"));
}

#[test]
fn upper_case_phrase_is_detected() {
    assert!(is_model_loading_error("MODEL NOT FOUND"));
    assert!(is_model_loading_error("Failed To Load the weights"));
}

#[test]
fn neutral_text_is_not_detected() {
    assert!(!is_model_loading_error("Request succeeded"));
    assert!(!is_model_loading_error("ok"));
    assert!(!is_model_loading_error(""));
}

#[test]
fn negative_with_model_reference_is_detected() {
    assert!(is_model_loading_error("failed to initialize"));
    assert!(is_model_loading_error("the model is missing"));
}

#[test]
fn distress_phrases_are_detected() {
    assert!(is_model_loading_error("HTTP 503 from upstream"));
    assert!(is_model_loading_error("connection refused"));
    assert!(is_model_loading_error("request timeout"));
    assert!(is_model_loading_error("internal error"));
}

#[test]
fn classify_priority_order() {
    assert_eq!(classify_model_loading_error("model not found"), ModelLoadingErrorType::ModelNotFound);
    assert_eq!(
        classify_model_loading_error("loading model, please wait"),
        ModelLoadingErrorType::ModelLoading
    );
    assert_eq!(classify_model_loading_error("everything is fine"), ModelLoadingErrorType::Unknown);
    assert_eq!(classify_model_loading_error("model not loaded"), ModelLoadingErrorType::ModelNotLoaded);
    assert_eq!(classify_model_loading_error("failed to load weights"), ModelLoadingErrorType::ModelFailed);
    assert_eq!(
        classify_model_loading_error("service unavailable right now"),
        ModelLoadingErrorType::ServiceUnavailable
    );
    assert_eq!(classify_model_loading_error("UNKNOWN MODEL xyz"), ModelLoadingErrorType::ModelNotFound);
}

#[test]
fn timing_threshold_is_strict() {
    assert!(is_probable_model_loading_by_timing(5000, 2000));
    assert!(!is_probable_model_loading_by_timing(1000, 2000));
    assert!(!is_probable_model_loading_by_timing(2000, 2000));
}
