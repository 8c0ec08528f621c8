use refflow::error::ReqError;
use refflow::status::{classify_failure, classify_head_failure, is_success};

#[test]
fn success_is_the_2xx_range() {
    assert!(!is_success(199));
    assert!(is_success(200));
    assert!(is_success(201));
    assert!(is_success(299));
    assert!(!is_success(300));
    assert!(!is_success(404));
}

#[test]
fn each_named_status_gets_its_error() {
    assert_eq!(classify_failure(400), ReqError::BadRequest);
    assert_eq!(classify_failure(401), ReqError::AuthError);
    assert_eq!(classify_failure(404), ReqError::NotFound);
    assert_eq!(classify_failure(415), ReqError::UnsupportedMediaType);
    assert_eq!(classify_failure(429), ReqError::TooManyRequest);
    assert_eq!(classify_failure(500), ReqError::UnknownConnectionError);
    assert_eq!(classify_failure(301), ReqError::UnknownConnectionError);
}

#[test]
fn head_lookup_failures_classify_narrowly() {
    assert_eq!(classify_head_failure(404), ReqError::NotFound);
    assert_eq!(classify_head_failure(401), ReqError::AuthError);
    assert_eq!(classify_head_failure(500), ReqError::BadRequest);
    assert_eq!(classify_head_failure(429), ReqError::BadRequest);
}

#[test]
fn error_messages_match_their_kind() {
    assert_eq!(
        ReqError::BadRequest.message(),
        "error in communicating with the API"
    );
    assert_eq!(
        ReqError::AuthError.message(),
        "error in authentication with the API"
    );
    assert_eq!(
        ReqError::TooManyRequest.message(),
        "too many requests sent over the quote"
    );
    assert_eq!(
        ReqError::UnsupportedMediaType.message(),
        "media type not supported for query"
    );
    assert_eq!(
        ReqError::ConnectionError.message(),
        "error communicating with the api"
    );
    assert_eq!(
        ReqError::UnknownConnectionError.message(),
        "unknown error communicating with the api"
    );
    assert_eq!(
        ReqError::AuthenticationTimeoutFailure.message(),
        "failed to renew auth token"
    );
    assert_eq!(ReqError::NotFound.message(), "not found");
}
