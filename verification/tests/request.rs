use line_login_api::api::{LineLoginCreateTokenRequest, LineLoginIdTokenVerifyRequest};
use line_login_api::request::{build_request, encode_form};
use line_login_api::{FormPayload, LineHttpMethod, LineLoginClient, LineRequest};

fn pair(name: &str, value: &str) -> (String, String) {
    (name.to_string(), value.to_string())
}

fn content_type() -> (String, String) {
    pair("Content-Type", "application/x-www-form-urlencoded")
}

fn client() -> LineLoginClient {
    LineLoginClient::new("my-id", "my secret")
}

fn assert_get(request: &LineRequest, url: &str, token: &str) {
    assert_eq!(request.method, LineHttpMethod::Get);
    assert_eq!(request.url, url);
    assert_eq!(request.body, "{}");
    if token.is_empty() {
        assert_eq!(request.headers, vec![content_type()]);
    } else {
        let bearer = format!("Bearer {}", token);
        assert_eq!(
            request.headers,
            vec![content_type(), pair("Authorization", &bearer)]
        );
    }
}

#[test]
fn build_request_without_token_has_no_authorization() {
    let request = build_request("https://example.com/a", LineHttpMethod::Get, "");
    assert_eq!(request.method, LineHttpMethod::Get);
    assert_eq!(request.url, "https://example.com/a");
    assert_eq!(request.headers, vec![content_type()]);
    assert_eq!(request.body, "");
}

#[test]
fn build_request_with_token_has_bearer_header() {
    let request = build_request("https://example.com/a", LineHttpMethod::Post, "tok");
    assert_eq!(request.method, LineHttpMethod::Post);
    assert_eq!(
        request.headers,
        vec![content_type(), pair("Authorization", "Bearer tok")]
    );
}

#[test]
fn encode_form_of_nothing_is_empty() {
    assert_eq!(encode_form(&vec![]), "");
}

#[test]
fn encode_form_joins_pairs() {
    let fields = vec![pair("a", "1"), pair("b", "2"), pair("c", "3")];
    assert_eq!(encode_form(&fields), "a=1&b=2&c=3");
}

#[test]
fn encode_form_keeps_empty_names_and_values() {
    assert_eq!(encode_form(&vec![pair("", "")]), "=");
    assert_eq!(encode_form(&vec![pair("", ""), pair("a", "")]), "=&a=");
}

#[test]
fn encode_form_escapes_bytes() {
    let fields = vec![pair("redirect uri", "https://example.com/cb?x=1&y=2")];
    assert_eq!(
        encode_form(&fields),
        "redirect+uri=https%3A%2F%2Fexample.com%2Fcb%3Fx%3D1%26y%3D2"
    );
}

#[test]
fn encode_form_leaves_unreserved_bytes() {
    let fields = vec![pair("k", "AZaz09*-._")];
    assert_eq!(encode_form(&fields), "k=AZaz09*-._");
}

#[test]
fn encode_form_escapes_utf8_and_controls() {
    let fields = vec![pair("k", "\u{e9}~\n+%")];
    assert_eq!(encode_form(&fields), "k=%C3%A9%7E%0A%2B%25");
}

#[test]
fn create_token_request() {
    let call = client().create_token("the code", "https://example.com/cb");
    let request = &call.request;
    assert_eq!(request.method, LineHttpMethod::Post);
    assert_eq!(request.url, "https://api.line.me/oauth2/v2.1/token");
    assert_eq!(request.headers, vec![content_type()]);
    assert_eq!(
        request.body,
        "grant_type=authorization_code&code=the+code&redirect_uri=https%3A%2F%2Fexample.com%2Fcb&client_id=my-id&client_secret=my+secret"
    );
}

#[test]
fn token_verify_request() {
    let call = client().token_verify("abc.DEF");
    assert_get(
        &call.request,
        "https://api.line.me/oauth2/v2.1/verify?access_token=abc.DEF",
        "",
    );
}

#[test]
fn update_access_token_request() {
    let call = client().update_access_token("r-1");
    let request = &call.request;
    assert_eq!(request.method, LineHttpMethod::Post);
    assert_eq!(request.url, "https://api.line.me/oauth2/v2.1/token");
    assert_eq!(request.headers, vec![content_type()]);
    assert_eq!(
        request.body,
        "client_id=my-id&client_secret=my+secret&grant_type=refresh_token&refresh_token=r-1"
    );
}

#[test]
fn revoke_access_token_lowercases_token() {
    let client = LineLoginClient::new("Client-ID", "SeCrEt");
    let call = client.revoke_access_token("AbC123");
    let request = &call.request;
    assert_eq!(request.method, LineHttpMethod::Post);
    assert_eq!(request.url, "https://api.line.me/oauth2/v2.1/token");
    assert_eq!(request.headers, vec![content_type()]);
    assert!(request.body.contains("access_token=abc123"));
    assert_eq!(
        request.body,
        "access_token=abc123&client_id=Client-ID&client_secret=SeCrEt"
    );
}

#[test]
fn revoke_access_token_lowercases_ascii_only() {
    let call = client().revoke_access_token("\u{c9}Z_9");
    assert_eq!(
        call.request.body,
        "access_token=%C3%89z_9&client_id=my-id&client_secret=my+secret"
    );
}

#[test]
fn id_token_verify_request_without_options() {
    let call = client().id_token_verify("id.tok", None, None);
    let request = &call.request;
    assert_eq!(request.method, LineHttpMethod::Post);
    assert_eq!(request.url, "https://api.line.me/oauth2/v2.1/verify");
    assert_eq!(request.headers, vec![content_type()]);
    assert_eq!(request.body, "id_token=id.tok&client_id=my-id");
}

#[test]
fn id_token_verify_request_with_options() {
    let call = client().id_token_verify("t", Some("n1".to_string()), Some("U1".to_string()));
    assert_eq!(
        call.request.body,
        "id_token=t&client_id=my-id&nonce=n1&user_id=U1"
    );
    let call = client().id_token_verify("t", None, Some("U1".to_string()));
    assert_eq!(call.request.body, "id_token=t&client_id=my-id&user_id=U1");
}

#[test]
fn user_info_request() {
    let call = client().user_info("tok");
    assert_get(&call.request, "https://api.line.me/oauth2/v2.1/userinfo", "tok");
}

#[test]
fn profile_request() {
    let call = client().profile("tok");
    assert_get(&call.request, "https://api.line.me/v2/profile", "tok");
}

#[test]
fn friend_ship_request() {
    let call = client().friend_ship("tok");
    assert_get(&call.request, "https://api.line.me/friendship/v1/status", "tok");
}

#[test]
fn bearer_endpoint_with_empty_token_sends_no_authorization() {
    let call = client().profile("");
    assert_get(&call.request, "https://api.line.me/v2/profile", "");
}

#[test]
fn http_get_carries_empty_object() {
    let request = client().http_get("https://example.com/x?a=b", "t");
    assert_get(&request, "https://example.com/x?a=b", "t");
}

#[test]
fn http_post_encodes_payload() {
    let payload = LineLoginIdTokenVerifyRequest {
        id_token: "a b".to_string(),
        client_id: "c".to_string(),
        nonce: Some("n".to_string()),
        user_id: None,
    };
    let request = client().http_post("https://example.com/p", payload, "tok");
    assert_eq!(request.method, LineHttpMethod::Post);
    assert_eq!(request.url, "https://example.com/p");
    assert_eq!(
        request.headers,
        vec![content_type(), pair("Authorization", "Bearer tok")]
    );
    assert_eq!(request.body, "id_token=a+b&client_id=c&nonce=n");
}

#[test]
fn create_token_payload_fields() {
    let mut payload = LineLoginCreateTokenRequest::default();
    payload.grant_type = "authorization_code".to_string();
    payload.code = "c".to_string();
    assert_eq!(
        payload.form_fields(),
        vec![
            pair("grant_type", "authorization_code"),
            pair("code", "c"),
            pair("redirect_uri", ""),
            pair("client_id", ""),
            pair("client_secret", ""),
        ]
    );
    payload.code_verifier = Some("v".to_string());
    assert_eq!(payload.form_fields().last(), Some(&pair("code_verifier", "v")));
    assert_eq!(payload.form_fields().len(), 6);
}
