use line_login_api::response::classify;
use line_login_api::{
    LineApiErrorResponse, LineApiResponse, LineHttpReply, LineLoginClient,
    LineLoginCreateTokenResponse, LineLoginEmptyResponse, LineLoginError, LineLoginFriendShip,
    LineLoginProfileResponse, LineLoginUserInfoResponse,
};

const TOKEN_BODY: &str = "{\"access_token\":\"at\",\"expires_in\":2592000,\"id_token\":\"it\",\"refresh_token\":\"rt\",\"scope\":\"profile openid\",\"token_type\":\"Bearer\"}";
const ERROR_BODY: &str =
    "{\"error\":\"invalid_request\",\"error_description\":\"The code is expired.\"}";

fn complete(status: u16, body: &[u8]) -> LineHttpReply {
    LineHttpReply::Complete { status, body: body.to_vec() }
}

fn system_message<R>(r: LineApiResponse<R>) -> String {
    match r {
        Err(LineLoginError::SystemError(e)) => e.message.expect("a system error has a message"),
        Err(LineLoginError::ApiError(_)) => panic!("API error where a system error was expected"),
        Err(LineLoginError::HttpError(_)) => panic!("HTTP error where a system error was expected"),
        Ok(_) => panic!("payload where a system error was expected"),
    }
}

#[test]
fn success_status_with_payload_gives_payload() {
    let r: LineApiResponse<LineLoginCreateTokenResponse> =
        LineLoginClient::http_response(complete(200, TOKEN_BODY.as_bytes()));
    let payload = r.expect("the body has the payload's shape");
    assert_eq!(payload.access_token, "at");
    assert_eq!(payload.expires_in, 2592000);
    assert_eq!(payload.id_token, "it");
    assert_eq!(payload.refresh_token, "rt");
    assert_eq!(payload.scope, "profile openid");
    assert_eq!(payload.token_type, "Bearer");
}

#[test]
fn error_status_with_envelope_gives_api_error() {
    let r: LineApiResponse<LineLoginCreateTokenResponse> =
        LineLoginClient::http_response(complete(400, ERROR_BODY.as_bytes()));
    match r {
        Err(LineLoginError::ApiError(e)) => {
            assert_eq!(e.status, 400);
            assert_eq!(e.error.error, "invalid_request");
            assert_eq!(e.error.error_description, "The code is expired.");
            assert!(e.warnings.is_none());
            assert_eq!(e.http_response_body.as_deref(), Some(ERROR_BODY));
        }
        _ => panic!("expected an API error"),
    }
}

#[test]
fn error_status_is_not_coerced_into_lenient_payload() {
    let r: LineApiResponse<LineLoginEmptyResponse> =
        LineLoginClient::http_response(complete(401, ERROR_BODY.as_bytes()));
    let e = r.err().expect("an envelope under an error status is an error");
    assert_eq!(e.status(), 401);
    assert_eq!(e.api_error().map(|x| x.error.as_str()), Some("invalid_request"));
}

#[test]
fn success_status_prefers_payload_over_envelope() {
    let r: LineApiResponse<LineLoginEmptyResponse> =
        LineLoginClient::http_response(complete(200, ERROR_BODY.as_bytes()));
    assert!(r.is_ok());
}

#[test]
fn success_status_with_envelope_falls_back_to_api_error() {
    let r: LineApiResponse<LineLoginCreateTokenResponse> =
        LineLoginClient::http_response(complete(200, ERROR_BODY.as_bytes()));
    match r {
        Err(LineLoginError::ApiError(e)) => {
            assert_eq!(e.status, 200);
            assert_eq!(e.error.error, "invalid_request");
            assert_eq!(e.http_response_body.as_deref(), Some(ERROR_BODY));
        }
        _ => panic!("expected an API error"),
    }
}

#[test]
fn error_status_with_payload_falls_through_to_payload() {
    let r: LineApiResponse<LineLoginFriendShip> =
        LineLoginClient::http_response(complete(500, b"{\"friendFlag\":true}"));
    assert!(r.expect("the payload is read where no envelope is").friend_flag);
}

#[test]
fn neither_shape_gives_system_error() {
    let r: LineApiResponse<LineLoginCreateTokenResponse> =
        LineLoginClient::http_response(complete(200, b"{\"hello\":\"world\"}"));
    assert_eq!(system_message(r), "missing field `access_token`");
}

#[test]
fn neither_shape_under_error_status_gives_system_error() {
    let r: LineApiResponse<LineLoginProfileResponse> =
        LineLoginClient::http_response(complete(503, b"{\"message\":\"busy\"}"));
    match r {
        Err(e) => {
            assert_eq!(e.status(), 0);
            assert!(e.api_error().is_none());
            assert_eq!(system_message::<()>(Err(e)), "missing field `userId`");
        }
        Ok(_) => panic!("expected an error"),
    }
}

#[test]
fn array_of_envelope_strings_gives_system_error() {
    for status in [200u16, 400, 500] {
        let r: LineApiResponse<LineLoginFriendShip> = LineLoginClient::http_response(complete(
            status,
            b"[\"invalid_request\",\"bad code\"]",
        ));
        match r {
            Err(e) => {
                assert!(matches!(e, LineLoginError::SystemError(_)));
                assert_eq!(e.status(), 0);
                assert!(e.api_error().is_none());
                assert_eq!(
                    system_message::<()>(Err(e)),
                    "invalid type: expected struct LineLoginFriendShip"
                );
            }
            Ok(_) => panic!("an array is no payload"),
        }
    }
}

#[test]
fn array_of_payload_fields_gives_system_error() {
    let r: LineApiResponse<LineLoginFriendShip> =
        LineLoginClient::http_response(complete(200, b"[true]"));
    assert_eq!(system_message(r), "invalid type: expected struct LineLoginFriendShip");
    let r: LineApiResponse<LineLoginEmptyResponse> =
        LineLoginClient::http_response(complete(200, b"[]"));
    assert_eq!(system_message(r), "invalid type: expected struct LineLoginEmptyResponse");
}

#[test]
fn text_that_is_no_json_gives_system_error() {
    let r: LineApiResponse<LineLoginFriendShip> =
        LineLoginClient::http_response(complete(404, b"Not Found"));
    match r {
        Err(e) => {
            assert!(matches!(e, LineLoginError::SystemError(_)));
            assert_eq!(e.status(), 0);
        }
        Ok(_) => panic!("expected an error"),
    }
}

#[test]
fn non_utf8_body_gives_system_error() {
    for status in [200u16, 400, 500] {
        let r: LineApiResponse<LineLoginEmptyResponse> =
            LineLoginClient::http_response(complete(status, &[0x7b, 0xff, 0xfe, 0x7d]));
        let expected = String::from_utf8(vec![0x7b, 0xff, 0xfe, 0x7d]).unwrap_err().to_string();
        assert_eq!(system_message(r), expected);
    }
}

#[test]
fn utf8_body_is_decoded() {
    let body = "{\"sub\":\"U1\",\"name\":\"\u{5c71}\u{7530} \u{e9}\"}";
    let r: LineApiResponse<LineLoginUserInfoResponse> =
        LineLoginClient::http_response(complete(200, body.as_bytes()));
    let payload = r.expect("valid UTF-8 is decoded");
    assert_eq!(payload.name.as_deref(), Some("\u{5c71}\u{7530} \u{e9}"));
}

#[test]
fn invalid_json_gives_system_error() {
    let r: LineApiResponse<LineLoginEmptyResponse> =
        LineLoginClient::http_response(complete(200, b"{\"a\":"));
    assert_eq!(system_message(r), "EOF while parsing a value at line 1 column 5");
}

#[test]
fn empty_body_gives_system_error() {
    let r: LineApiResponse<LineLoginEmptyResponse> =
        LineLoginClient::http_response(complete(200, b""));
    assert_eq!(system_message(r), "EOF while parsing a value at line 1 column 0");
}

#[test]
fn failed_exchange_gives_system_error() {
    let r: LineApiResponse<LineLoginEmptyResponse> =
        LineLoginClient::http_response(LineHttpReply::Failed { message: "dns error".to_string() });
    assert_eq!(system_message(r), "dns error");
}

#[test]
fn interrupted_body_gives_http_error() {
    let r: LineApiResponse<LineLoginEmptyResponse> = LineLoginClient::http_response(
        LineHttpReply::Interrupted { status: 200, message: "connection closed".to_string() },
    );
    match r {
        Err(LineLoginError::HttpError(e)) => {
            assert_eq!(e.status, 200);
            assert_eq!(e.http_response_body.as_deref(), Some("connection closed"));
        }
        _ => panic!("expected an HTTP error"),
    }
}

#[test]
fn http_response_body_matches_http_response() {
    let r: LineApiResponse<LineLoginFriendShip> =
        LineLoginClient::http_response_body(200, b"{\"friendFlag\":false}".to_vec());
    assert!(!r.expect("payload").friend_flag);
}

#[test]
fn http_response_text_keeps_given_body_text() {
    let value: serde_json::Value = serde_json::from_str(ERROR_BODY).unwrap();
    let r: LineApiResponse<LineLoginFriendShip> =
        LineLoginClient::http_response_text(404, "raw text".to_string(), &value);
    match r {
        Err(LineLoginError::ApiError(e)) => {
            assert_eq!(e.status, 404);
            assert_eq!(e.http_response_body.as_deref(), Some("raw text"));
        }
        _ => panic!("expected an API error"),
    }
}

#[test]
fn call_completes_with_its_payload() {
    let client = LineLoginClient::new("id", "secret");
    let r = client.create_token("c", "r").complete(complete(200, TOKEN_BODY.as_bytes()));
    assert_eq!(r.expect("payload").access_token, "at");
    let r = client.revoke_access_token("t").complete(complete(200, b"{}"));
    assert!(r.is_ok());
    let r = client.friend_ship("t").complete(complete(200, b"{\"friendFlag\":true}"));
    assert!(r.expect("payload").friend_flag);
}

fn envelope() -> LineApiErrorResponse {
    LineApiErrorResponse { error: "e".to_string(), error_description: "d".to_string() }
}

#[test]
fn classify_precedence() {
    // status >= 400: the envelope wins over a payload
    let r = classify(400, "b".to_string(), Ok(envelope()), Ok::<LineLoginEmptyResponse, _>(LineLoginEmptyResponse {}));
    assert!(matches!(r, Err(LineLoginError::ApiError(ref e)) if e.status == 400));
    // status < 400: the payload wins over an envelope
    let r = classify(399, "b".to_string(), Ok(envelope()), Ok::<LineLoginEmptyResponse, _>(LineLoginEmptyResponse {}));
    assert!(r.is_ok());
    // status >= 400 without envelope: the payload is returned
    let r = classify(500, "b".to_string(), Err("no".to_string()), Ok::<LineLoginEmptyResponse, _>(LineLoginEmptyResponse {}));
    assert!(r.is_ok());
    // no payload, envelope: API error with the status as it is
    let r = classify(200, "b".to_string(), Ok(envelope()), Err::<LineLoginEmptyResponse, _>("p".to_string()));
    assert!(matches!(r, Err(LineLoginError::ApiError(ref e)) if e.status == 200 && e.http_response_body.as_deref() == Some("b")));
    // neither: system error with the payload's diagnostic
    let r = classify(200, "b".to_string(), Err("env".to_string()), Err::<LineLoginEmptyResponse, _>("p".to_string()));
    assert_eq!(system_message(r), "p");
    let r = classify(400, "b".to_string(), Err("env".to_string()), Err::<LineLoginEmptyResponse, _>("p".to_string()));
    assert_eq!(system_message(r), "p");
}
