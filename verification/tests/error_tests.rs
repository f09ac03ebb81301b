use payrex::error::{Error, ErrorKind};

#[test]
fn test_error_kind_from_str() {
    assert_eq!(
        ErrorKind::from_str("invalid_request").unwrap(),
        ErrorKind::InvalidRequest
    );
    assert_eq!(
        ErrorKind::from_str("authentication_error").unwrap(),
        ErrorKind::Authentication
    );
    assert_eq!(
        ErrorKind::from_str("rate_limit").unwrap(),
        ErrorKind::RateLimit
    );
    assert_eq!(ErrorKind::from_str("unknown").unwrap(), ErrorKind::Unknown);
}

#[test]
fn test_error_kind_is_retryable() {
    assert!(ErrorKind::RateLimit.is_retryable());
    assert!(ErrorKind::ServerError.is_retryable());
    assert!(!ErrorKind::InvalidRequest.is_retryable());
    assert!(!ErrorKind::Authentication.is_retryable());
}

#[test]
fn test_error_is_retryable() {
    let error = Error::api(ErrorKind::RateLimit, "Too many requests");
    assert!(error.is_retryable());

    let error = Error::api(ErrorKind::InvalidRequest, "Bad request");
    assert!(!error.is_retryable());
}

#[test]
fn test_error_status_code() {
    let error = Error::api_with_status(ErrorKind::NotFound, "Not found", 404);
    assert_eq!(error.status_code(), Some(404));
}

#[test]
fn error_kind_from_str_knows_both_names_of_each_kind() {
    let table = [
        ("invalid_request", ErrorKind::InvalidRequest),
        ("invalid_request_error", ErrorKind::InvalidRequest),
        ("authentication", ErrorKind::Authentication),
        ("authentication_error", ErrorKind::Authentication),
        ("rate_limit", ErrorKind::RateLimit),
        ("rate_limit_error", ErrorKind::RateLimit),
        ("not_found", ErrorKind::NotFound),
        ("resource_not_found", ErrorKind::NotFound),
        ("permission_denied", ErrorKind::PermissionDenied),
        ("forbidden", ErrorKind::PermissionDenied),
        ("idempotency", ErrorKind::Idempotency),
        ("idempotency_error", ErrorKind::Idempotency),
        ("server_error", ErrorKind::ServerError),
        ("internal_server_error", ErrorKind::ServerError),
        ("", ErrorKind::Unknown),
        ("Rate_Limit", ErrorKind::Unknown),
    ];
    for (name, kind) in table {
        assert_eq!(ErrorKind::from_str(name), Ok(kind), "{name}");
    }
}

#[test]
fn error_kind_from_str_through_the_trait() {
    let kind: ErrorKind = "forbidden".parse().unwrap();
    assert_eq!(kind, ErrorKind::PermissionDenied);
}

#[test]
fn error_kind_to_string_gives_the_shown_name() {
    assert_eq!(ErrorKind::InvalidRequest.to_string(), "invalid_request");
    assert_eq!(ErrorKind::Authentication.to_string(), "authentication_error");
    assert_eq!(ErrorKind::RateLimit.to_string(), "rate_limit");
    assert_eq!(ErrorKind::NotFound.to_string(), "not_found");
    assert_eq!(ErrorKind::PermissionDenied.to_string(), "permission_denied");
    assert_eq!(ErrorKind::Idempotency.to_string(), "idempotency_error");
    assert_eq!(ErrorKind::ServerError.to_string(), "server_error");
    assert_eq!(ErrorKind::Unknown.to_string(), "unknown_error");
}

#[test]
fn error_api_has_no_status_and_no_request_id() {
    let error = Error::api(ErrorKind::ServerError, String::from("down"));
    assert_eq!(error.status_code(), None);
    assert_eq!(error.request_id(), None);
    assert!(error.is_retryable());
    match error {
        Error::Api { kind, message, .. } => {
            assert_eq!(kind, ErrorKind::ServerError);
            assert_eq!(message, "down");
        }
        other => panic!("not an error of the API: {other:?}"),
    }
}

#[test]
fn error_request_id_is_read_from_api_errors_only() {
    let error = Error::Api {
        kind: ErrorKind::NotFound,
        message: "gone".to_string(),
        status_code: Some(404),
        request_id: Some("req_1".to_string()),
    };
    assert_eq!(error.request_id(), Some("req_1"));
    assert_eq!(Error::Config("bad".to_string()).request_id(), None);
    assert_eq!(Error::Config("bad".to_string()).status_code(), None);
}

#[test]
fn error_retryable_by_variant() {
    let second = std::time::Duration::from_secs(1);
    assert!(Error::RateLimit { retry_after: None }.is_retryable());
    assert!(Error::RateLimit { retry_after: Some(second) }.is_retryable());
    assert!(Error::Timeout(second).is_retryable());
    assert!(!Error::Config("c".to_string()).is_retryable());
    assert!(!Error::InvalidApiKey("k".to_string()).is_retryable());
    assert!(!Error::InvalidRequest("r".to_string()).is_retryable());
    assert!(!Error::NotFound("n".to_string()).is_retryable());
    assert!(!Error::Authentication("a".to_string()).is_retryable());
    assert!(!Error::PermissionDenied("p".to_string()).is_retryable());
    assert!(!Error::Idempotency("i".to_string()).is_retryable());
    assert!(!Error::Internal("x".to_string()).is_retryable());
    assert!(!Error::api(ErrorKind::Unknown, "u").is_retryable());
}

#[test]
fn error_http_retryable_is_timeout_or_connect() {
    assert!(Error::http_retryable(true, false));
    assert!(Error::http_retryable(false, true));
    assert!(Error::http_retryable(true, true));
    assert!(!Error::http_retryable(false, false));
}

#[test]
fn error_from_json_error_is_final() {
    let broken = serde_json::from_str::<serde_json::Value>("{").unwrap_err();
    let error = Error::from(broken);
    assert!(matches!(error, Error::Json(_)));
    assert!(!error.is_retryable());
}

#[test]
fn error_from_http_builder_error_is_not_retryable() {
    let failed = reqwest::Client::new().get("not a url").build().unwrap_err();
    assert!(!failed.is_timeout());
    assert!(!failed.is_connect());
    let error = Error::from(failed);
    assert!(matches!(error, Error::Http(_)));
    assert!(!error.is_retryable());
}
