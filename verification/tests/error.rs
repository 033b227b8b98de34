use line_login_api::{
    LineApiError, LineApiErrorResponse, LineHttpError, LineLoginError, LineSystemError,
};

fn envelope() -> LineApiErrorResponse {
    LineApiErrorResponse {
        error: "invalid_request".to_string(),
        error_description: "bad code".to_string(),
    }
}

#[test]
fn http_error_new_keeps_status_and_body() {
    let e = LineHttpError::new(502, "connection reset".to_string());
    assert_eq!(e.status, 502);
    assert_eq!(e.http_response_body, Some("connection reset".to_string()));
}

#[test]
fn system_error_new_keeps_message() {
    let e = LineSystemError::new("boom".to_string());
    assert_eq!(e.message, Some("boom".to_string()));
}

#[test]
fn status_of_each_kind() {
    let api = LineLoginError::ApiError(LineApiError {
        status: 401,
        error: envelope(),
        warnings: None,
        http_response_body: None,
    });
    let http = LineLoginError::HttpError(LineHttpError::new(503, String::new()));
    let system = LineLoginError::SystemError(LineSystemError::new("x".to_string()));
    assert_eq!(api.status(), 401);
    assert_eq!(http.status(), 503);
    assert_eq!(system.status(), 0);
}

#[test]
fn api_error_only_for_api_kind() {
    let api = LineLoginError::ApiError(LineApiError {
        status: 400,
        error: envelope(),
        warnings: Some(vec!["w".to_string()]),
        http_response_body: Some("{}".to_string()),
    });
    let found = api.api_error().expect("an API error carries its envelope");
    assert_eq!(found.error, "invalid_request");
    assert_eq!(found.error_description, "bad code");
    let http = LineLoginError::HttpError(LineHttpError::new(400, String::new()));
    assert!(http.api_error().is_none());
    let system = LineLoginError::SystemError(LineSystemError::new(String::new()));
    assert!(system.api_error().is_none());
}

#[test]
fn from_wraps_each_kind() {
    let api: LineLoginError = LineApiError {
        status: 404,
        error: envelope(),
        warnings: None,
        http_response_body: None,
    }
    .into();
    assert!(matches!(api, LineLoginError::ApiError(ref e) if e.status == 404));
    let http: LineLoginError = LineHttpError::new(500, "x".to_string()).into();
    assert!(matches!(http, LineLoginError::HttpError(ref e) if e.status == 500));
    let system: LineLoginError = LineSystemError::new("y".to_string()).into();
    assert!(
        matches!(system, LineLoginError::SystemError(ref e) if e.message.as_deref() == Some("y"))
    );
}
