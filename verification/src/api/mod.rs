//! The endpoints of the login API.
//!
//! Each endpoint describes its request and names the payload that the reply is
//! to be read as. The caller has the request carried out and hands the reply
//! back to the call.

pub mod payload;

use core::marker::PhantomData;
use vstd::prelude::*;
use crate::api::payload::{
    LineLoginCreateTokenResponse, LineLoginEmptyResponse, LineLoginFriendShip,
    LineLoginIdTokenVerifyResponse, LineLoginProfileResponse, LineLoginTokenVerifyResponse,
    LineLoginUpdateAccessTokenResponse, LineLoginUserInfoResponse,
};
use crate::client::LineLoginClient;
use crate::codec::JsonDecode;
use crate::request::{get_request, post_request, FormPayload, LineRequest};
use crate::response::{reply_spec, response_view, LineApiResponse, LineHttpReply};

verus! {

/// The form that exchanges an authorization code for tokens.
#[derive(Debug, Default, Clone)]
pub struct LineLoginCreateTokenRequest {
    pub grant_type: String,
    pub code: String,
    pub redirect_uri: String,
    pub client_id: String,
    pub client_secret: String,
    pub code_verifier: Option<String>,
}

impl FormPayload for LineLoginCreateTokenRequest {
    open spec fn form_spec(&self) -> Seq<(Seq<char>, Seq<char>)> {
        let fields = seq![
            ("grant_type"@, self.grant_type@),
            ("code"@, self.code@),
            ("redirect_uri"@, self.redirect_uri@),
            ("client_id"@, self.client_id@),
            ("client_secret"@, self.client_secret@),
        ];
        match self.code_verifier {
            Some(verifier) => fields.push(("code_verifier"@, verifier@)),
            None => fields,
        }
    }

    fn form_fields(&self) -> (fields: Vec<(String, String)>) {
        let mut fields: Vec<(String, String)> = Vec::new();
        fields.push(("grant_type".to_owned(), self.grant_type.clone()));
        fields.push(("code".to_owned(), self.code.clone()));
        fields.push(("redirect_uri".to_owned(), self.redirect_uri.clone()));
        fields.push(("client_id".to_owned(), self.client_id.clone()));
        fields.push(("client_secret".to_owned(), self.client_secret.clone()));
        match &self.code_verifier {
            Some(verifier) => {
                fields.push(("code_verifier".to_owned(), verifier.clone()));
            },
            None => {},
        }
        assert(fields.deep_view() =~= self.form_spec());
        fields
    }
}

/// The form that exchanges a refresh token for a new access token. Its fields
/// go out in the order of their names.
#[derive(Debug, Default, Clone)]
pub(crate) struct LineLoginUpdateAccessTokenRequest {
    pub grant_type: String,
    pub refresh_token: String,
    pub client_id: String,
    pub client_secret: String,
}

impl FormPayload for LineLoginUpdateAccessTokenRequest {
    closed spec fn form_spec(&self) -> Seq<(Seq<char>, Seq<char>)> {
        seq![
            ("client_id"@, self.client_id@),
            ("client_secret"@, self.client_secret@),
            ("grant_type"@, self.grant_type@),
            ("refresh_token"@, self.refresh_token@),
        ]
    }

    fn form_fields(&self) -> (fields: Vec<(String, String)>) {
        let mut fields: Vec<(String, String)> = Vec::new();
        fields.push(("client_id".to_owned(), self.client_id.clone()));
        fields.push(("client_secret".to_owned(), self.client_secret.clone()));
        fields.push(("grant_type".to_owned(), self.grant_type.clone()));
        fields.push(("refresh_token".to_owned(), self.refresh_token.clone()));
        assert(fields.deep_view() =~= self.form_spec());
        fields
    }
}

/// The form that revokes an access token. Its fields go out in the order of
/// their names.
#[derive(Debug, Default, Clone)]
pub(crate) struct LineLoginRevokeAccessTokenRequest {
    pub access_token: String,
    pub client_id: String,
    pub client_secret: String,
}

impl FormPayload for LineLoginRevokeAccessTokenRequest {
    closed spec fn form_spec(&self) -> Seq<(Seq<char>, Seq<char>)> {
        seq![
            ("access_token"@, self.access_token@),
            ("client_id"@, self.client_id@),
            ("client_secret"@, self.client_secret@),
        ]
    }

    fn form_fields(&self) -> (fields: Vec<(String, String)>) {
        let mut fields: Vec<(String, String)> = Vec::new();
        fields.push(("access_token".to_owned(), self.access_token.clone()));
        fields.push(("client_id".to_owned(), self.client_id.clone()));
        fields.push(("client_secret".to_owned(), self.client_secret.clone()));
        assert(fields.deep_view() =~= self.form_spec());
        fields
    }
}

/// The form that has an ID token verified.
#[derive(Debug, Default, Clone)]
pub struct LineLoginIdTokenVerifyRequest {
    pub id_token: String,
    pub client_id: String,
    pub nonce: Option<String>,
    pub user_id: Option<String>,
}

/// A form with one more field where a value is present.
pub open spec fn with_optional(
    fields: Seq<(Seq<char>, Seq<char>)>,
    name: Seq<char>,
    value: Option<Seq<char>>,
) -> Seq<(Seq<char>, Seq<char>)> {
    match value {
        Some(text) => fields.push((name, text)),
        None => fields,
    }
}

impl FormPayload for LineLoginIdTokenVerifyRequest {
    open spec fn form_spec(&self) -> Seq<(Seq<char>, Seq<char>)> {
        with_optional(
            with_optional(
                seq![("id_token"@, self.id_token@), ("client_id"@, self.client_id@)],
                "nonce"@,
                self.nonce.deep_view(),
            ),
            "user_id"@,
            self.user_id.deep_view(),
        )
    }

    fn form_fields(&self) -> (fields: Vec<(String, String)>) {
        let mut fields: Vec<(String, String)> = Vec::new();
        fields.push(("id_token".to_owned(), self.id_token.clone()));
        fields.push(("client_id".to_owned(), self.client_id.clone()));
        match &self.nonce {
            Some(nonce) => {
                fields.push(("nonce".to_owned(), nonce.clone()));
            },
            None => {},
        }
        match &self.user_id {
            Some(user_id) => {
                fields.push(("user_id".to_owned(), user_id.clone()));
            },
            None => {},
        }
        assert(fields.deep_view() =~= self.form_spec());
        fields
    }
}

/// A call that is under way: the request to carry out, and the payload that
/// its reply is to be read as.
pub struct LineCall<R> {
    pub request: LineRequest,
    pub payload: PhantomData<R>,
}

impl<R: JsonDecode> LineCall<R> {
    /// Ends the call with what the transport handed back.
    pub fn complete(self, reply: LineHttpReply) -> (r: LineApiResponse<R>)
        ensures
            response_view(r) == reply_spec::<R>(reply@),
    {
        LineLoginClient::http_response(reply)
    }
}

/// The lower-case form of an ASCII capital letter; any other character as it
/// is.
pub open spec fn ascii_lower(c: char) -> char {
    if 0x41 <= c as u32 <= 0x5A {
        ((c as u32) + 32) as char
    } else {
        c
    }
}

/// A text with its ASCII capital letters in lower case.
pub open spec fn ascii_lowercase(text: Seq<char>) -> Seq<char> {
    text.map_values(|c: char| ascii_lower(c))
}

/// `str::to_ascii_lowercase`: a copy in which the letters `A` to `Z` are
/// mapped to `a` to `z` and every other character is unchanged.
#[verifier::external_body]
fn to_ascii_lowercase(text: &str) -> (lower: String)
    ensures
        lower@ == ascii_lowercase(text@),
{
    text.to_ascii_lowercase()
}

impl LineLoginClient {
    /// Exchanges an authorization code for tokens.
    pub fn create_token(&self, code: &str, redirect_uri: &str) -> (call: LineCall<
        LineLoginCreateTokenResponse,
    >)
        ensures
            call.request@ == post_request(
                "https://api.line.me/oauth2/v2.1/token"@,
                seq![
                    ("grant_type"@, "authorization_code"@),
                    ("code"@, code@),
                    ("redirect_uri"@, redirect_uri@),
                    ("client_id"@, self.spec_client_id()),
                    ("client_secret"@, self.spec_client_secret()),
                ],
                ""@,
            ),
    {
        let req = LineLoginCreateTokenRequest {
            grant_type: "authorization_code".to_owned(),
            code: code.to_owned(),
            redirect_uri: redirect_uri.to_owned(),
            client_id: self.client_id(),
            client_secret: self.client_secret(),
            code_verifier: None,
        };
        let request = self.http_post("https://api.line.me/oauth2/v2.1/token", req, "");
        LineCall { request, payload: PhantomData }
    }

    /// Asks whether an access token is valid. The token goes into the query of
    /// the URL as it is given.
    pub fn token_verify(&self, token: &str) -> (call: LineCall<LineLoginTokenVerifyResponse>)
        ensures
            call.request@ == get_request(
                "https://api.line.me/oauth2/v2.1/verify?access_token="@ + token@,
                ""@,
            ),
    {
        let mut url = "https://api.line.me/oauth2/v2.1/verify?access_token=".to_owned();
        url.append(token);
        let request = self.http_get(url.as_str(), "");
        LineCall { request, payload: PhantomData }
    }

    /// Exchanges a refresh token for a new access token.
    pub fn update_access_token(&self, refresh_token: &str) -> (call: LineCall<
        LineLoginUpdateAccessTokenResponse,
    >)
        ensures
            call.request@ == post_request(
                "https://api.line.me/oauth2/v2.1/token"@,
                seq![
                    ("client_id"@, self.spec_client_id()),
                    ("client_secret"@, self.spec_client_secret()),
                    ("grant_type"@, "refresh_token"@),
                    ("refresh_token"@, refresh_token@),
                ],
                ""@,
            ),
    {
        let req = LineLoginUpdateAccessTokenRequest {
            grant_type: "refresh_token".to_owned(),
            refresh_token: refresh_token.to_owned(),
            client_id: self.client_id(),
            client_secret: self.client_secret(),
        };
        let request = self.http_post("https://api.line.me/oauth2/v2.1/token", req, "");
        LineCall { request, payload: PhantomData }
    }

    /// Revokes an access token. The token is sent with its ASCII letters in
    /// lower case; the credentials are sent as they are.
    pub fn revoke_access_token(&self, access_token: &str) -> (call: LineCall<
        LineLoginEmptyResponse,
    >)
        ensures
            call.request@ == post_request(
                "https://api.line.me/oauth2/v2.1/token"@,
                seq![
                    ("access_token"@, ascii_lowercase(access_token@)),
                    ("client_id"@, self.spec_client_id()),
                    ("client_secret"@, self.spec_client_secret()),
                ],
                ""@,
            ),
    {
        let req = LineLoginRevokeAccessTokenRequest {
            access_token: to_ascii_lowercase(access_token),
            client_id: self.client_id(),
            client_secret: self.client_secret(),
        };
        let request = self.http_post("https://api.line.me/oauth2/v2.1/token", req, "");
        LineCall { request, payload: PhantomData }
    }

    /// Has an ID token verified, against a nonce and a user ID where they are
    /// given.
    pub fn id_token_verify(&self, id_token: &str, nonce: Option<String>, user_id: Option<String>)
        -> (call: LineCall<LineLoginIdTokenVerifyResponse>)
        ensures
            call.request@ == post_request(
                "https://api.line.me/oauth2/v2.1/verify"@,
                with_optional(
                    with_optional(
                        seq![("id_token"@, id_token@), ("client_id"@, self.spec_client_id())],
                        "nonce"@,
                        nonce.deep_view(),
                    ),
                    "user_id"@,
                    user_id.deep_view(),
                ),
                ""@,
            ),
    {
        let client_id = self.client_id();
        let req = LineLoginIdTokenVerifyRequest {
            id_token: id_token.to_owned(),
            client_id,
            nonce,
            user_id,
        };
        let request = self.http_post("https://api.line.me/oauth2/v2.1/verify", req, "");
        LineCall { request, payload: PhantomData }
    }

    /// Asks for the user's claims, as the bearer of an access token.
    pub fn user_info(&self, access_token: &str) -> (call: LineCall<LineLoginUserInfoResponse>)
        ensures
            call.request@ == get_request("https://api.line.me/oauth2/v2.1/userinfo"@, access_token@),
    {
        let request = self.http_get("https://api.line.me/oauth2/v2.1/userinfo", access_token);
        LineCall { request, payload: PhantomData }
    }

    /// Asks for the user's profile, as the bearer of an access token.
    pub fn profile(&self, access_token: &str) -> (call: LineCall<LineLoginProfileResponse>)
        ensures
            call.request@ == get_request("https://api.line.me/v2/profile"@, access_token@),
    {
        let request = self.http_get("https://api.line.me/v2/profile", access_token);
        LineCall { request, payload: PhantomData }
    }

    /// Asks whether the user is a friend of the channel's official account, as
    /// the bearer of an access token.
    pub fn friend_ship(&self, access_token: &str) -> (call: LineCall<LineLoginFriendShip>)
        ensures
            call.request@ == get_request("https://api.line.me/friendship/v1/status"@, access_token@),
    {
        let request = self.http_get("https://api.line.me/friendship/v1/status", access_token);
        LineCall { request, payload: PhantomData }
    }
}

} // verus!
