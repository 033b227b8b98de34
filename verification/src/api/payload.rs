//! The payloads that the endpoints answer with, and how each is read out of a
//! JSON document.

use vstd::prelude::*;
use crate::codec::{
    bool_at, bool_field, check_shape, lemma_text_list_of_list_json, optional_text_at,
    optional_text_field, optional_text_list_at, optional_text_list_field, optional_unsigned_at,
    optional_unsigned_field, put_bool, put_optional_text, put_optional_text_list,
    put_optional_unsigned, put_text, put_unsigned, shape_text, struct_shape, text_at,
    text_field, unsigned_at, unsigned_field, with_bool, with_optional_text,
    with_optional_text_list, with_optional_unsigned, with_text, with_unsigned, JsonDecode,
    JsonEncode,
};
use crate::error::{LineApiErrorResponse, LineApiErrorResponseView};
use crate::json::{members_new, no_members, value_of_members, Json};

verus! {

/// The answer of an endpoint that has nothing to say.
#[derive(Debug, Default, Clone)]
pub struct LineLoginEmptyResponse {}

impl View for LineLoginEmptyResponse {
    type V = ();

    open spec fn view(&self) -> () {
        ()
    }
}

impl JsonDecode for LineLoginEmptyResponse {
    open spec fn decode_spec(json: Json) -> Result<(), Seq<char>> {
        if !struct_shape(json) {
            Err(shape_text("LineLoginEmptyResponse"@))
        } else {
            Ok(())
        }
    }

    fn decode(value: &serde_json::Value) -> (r: Result<Self, String>) {
        match check_shape(value, "LineLoginEmptyResponse") {
            Ok(_) => Ok(LineLoginEmptyResponse {}),
            Err(message) => Err(message),
        }
    }

    proof fn needs_object(json: Json) {
    }
}

impl JsonEncode for LineLoginEmptyResponse {
    open spec fn encode_spec(payload: ()) -> Json {
        Json::Object(no_members())
    }

    fn encode(&self) -> (value: serde_json::Value) {
        value_of_members(members_new())
    }

    proof fn round_trip(payload: ()) {
    }
}

impl JsonDecode for LineApiErrorResponse {
    open spec fn decode_spec(json: Json) -> Result<LineApiErrorResponseView, Seq<char>> {
        let error = text_at(json, "error"@);
        let error_description = text_at(json, "error_description"@);
        if !struct_shape(json) {
            Err(shape_text("LineApiErrorResponse"@))
        } else if error is Err {
            Err(error->Err_0)
        } else if error_description is Err {
            Err(error_description->Err_0)
        } else {
            Ok(LineApiErrorResponseView {
                error: error->Ok_0,
                error_description: error_description->Ok_0,
            })
        }
    }

    fn decode(value: &serde_json::Value) -> (r: Result<Self, String>) {
        check_shape(value, "LineApiErrorResponse")?;
        let error = text_field(value, "error")?;
        let error_description = text_field(value, "error_description")?;
        Ok(LineApiErrorResponse { error, error_description })
    }

    proof fn needs_object(json: Json) {
    }
}

impl JsonEncode for LineApiErrorResponse {
    open spec fn encode_spec(payload: LineApiErrorResponseView) -> Json {
        let members = no_members();
        let members = with_text(members, "error"@, payload.error);
        let members = with_text(members, "error_description"@, payload.error_description);
        Json::Object(members)
    }

    fn encode(&self) -> (value: serde_json::Value) {
        let mut members = members_new();
        put_text(&mut members, "error", &self.error);
        put_text(&mut members, "error_description", &self.error_description);
        value_of_members(members)
    }

    proof fn round_trip(payload: LineApiErrorResponseView) {
        reveal_strlit("error");
        reveal_strlit("error_description");
        assert("error"@.len() == 5);
        assert("error_description"@.len() == 17);
    }
}

/// What the token endpoint returns for an authorization code.
#[derive(Debug, Default, Clone)]
pub struct LineLoginCreateTokenResponse {
    pub access_token: String,
    pub expires_in: u64,
    pub id_token: String,
    pub refresh_token: String,
    pub scope: String,
    pub token_type: String,
}

pub struct LineLoginCreateTokenResponseView {
    pub access_token: Seq<char>,
    pub expires_in: u64,
    pub id_token: Seq<char>,
    pub refresh_token: Seq<char>,
    pub scope: Seq<char>,
    pub token_type: Seq<char>,
}

impl View for LineLoginCreateTokenResponse {
    type V = LineLoginCreateTokenResponseView;

    open spec fn view(&self) -> LineLoginCreateTokenResponseView {
        LineLoginCreateTokenResponseView {
            access_token: self.access_token@,
            expires_in: self.expires_in,
            id_token: self.id_token@,
            refresh_token: self.refresh_token@,
            scope: self.scope@,
            token_type: self.token_type@,
        }
    }
}

impl JsonDecode for LineLoginCreateTokenResponse {
    open spec fn decode_spec(json: Json) -> Result<LineLoginCreateTokenResponseView, Seq<char>> {
        let access_token = text_at(json, "access_token"@);
        let expires_in = unsigned_at(json, "expires_in"@);
        let id_token = text_at(json, "id_token"@);
        let refresh_token = text_at(json, "refresh_token"@);
        let scope = text_at(json, "scope"@);
        let token_type = text_at(json, "token_type"@);
        if !struct_shape(json) {
            Err(shape_text("LineLoginCreateTokenResponse"@))
        } else if access_token is Err {
            Err(access_token->Err_0)
        } else if expires_in is Err {
            Err(expires_in->Err_0)
        } else if id_token is Err {
            Err(id_token->Err_0)
        } else if refresh_token is Err {
            Err(refresh_token->Err_0)
        } else if scope is Err {
            Err(scope->Err_0)
        } else if token_type is Err {
            Err(token_type->Err_0)
        } else {
            Ok(LineLoginCreateTokenResponseView {
                access_token: access_token->Ok_0,
                expires_in: expires_in->Ok_0,
                id_token: id_token->Ok_0,
                refresh_token: refresh_token->Ok_0,
                scope: scope->Ok_0,
                token_type: token_type->Ok_0,
            })
        }
    }

    fn decode(value: &serde_json::Value) -> (r: Result<Self, String>) {
        check_shape(value, "LineLoginCreateTokenResponse")?;
        let access_token = text_field(value, "access_token")?;
        let expires_in = unsigned_field(value, "expires_in")?;
        let id_token = text_field(value, "id_token")?;
        let refresh_token = text_field(value, "refresh_token")?;
        let scope = text_field(value, "scope")?;
        let token_type = text_field(value, "token_type")?;
        Ok(LineLoginCreateTokenResponse { access_token, expires_in, id_token, refresh_token, scope, token_type })
    }

    proof fn needs_object(json: Json) {
    }
}

impl JsonEncode for LineLoginCreateTokenResponse {
    open spec fn encode_spec(payload: LineLoginCreateTokenResponseView) -> Json {
        let members = no_members();
        let members = with_text(members, "access_token"@, payload.access_token);
        let members = with_unsigned(members, "expires_in"@, payload.expires_in);
        let members = with_text(members, "id_token"@, payload.id_token);
        let members = with_text(members, "refresh_token"@, payload.refresh_token);
        let members = with_text(members, "scope"@, payload.scope);
        let members = with_text(members, "token_type"@, payload.token_type);
        Json::Object(members)
    }

    fn encode(&self) -> (value: serde_json::Value) {
        let mut members = members_new();
        put_text(&mut members, "access_token", &self.access_token);
        put_unsigned(&mut members, "expires_in", self.expires_in);
        put_text(&mut members, "id_token", &self.id_token);
        put_text(&mut members, "refresh_token", &self.refresh_token);
        put_text(&mut members, "scope", &self.scope);
        put_text(&mut members, "token_type", &self.token_type);
        value_of_members(members)
    }

    proof fn round_trip(payload: LineLoginCreateTokenResponseView) {
        reveal_strlit("access_token");
        reveal_strlit("expires_in");
        reveal_strlit("id_token");
        reveal_strlit("refresh_token");
        reveal_strlit("scope");
        reveal_strlit("token_type");
        assert("access_token"@.len() == 12);
        assert("expires_in"@.len() == 10);
        assert("id_token"@.len() == 8);
        assert("refresh_token"@.len() == 13);
        assert("scope"@.len() == 5);
        assert("token_type"@.len() == 10);
        assert("expires_in"@[0] != "token_type"@[0]);
    }
}

/// What the verify endpoint returns for an access token.
#[derive(Debug, Default, Clone)]
pub struct LineLoginTokenVerifyResponse {
    pub scope: String,
    pub client_id: String,
    pub expires_in: u64,
}

pub struct LineLoginTokenVerifyResponseView {
    pub scope: Seq<char>,
    pub client_id: Seq<char>,
    pub expires_in: u64,
}

impl View for LineLoginTokenVerifyResponse {
    type V = LineLoginTokenVerifyResponseView;

    open spec fn view(&self) -> LineLoginTokenVerifyResponseView {
        LineLoginTokenVerifyResponseView {
            scope: self.scope@,
            client_id: self.client_id@,
            expires_in: self.expires_in,
        }
    }
}

impl JsonDecode for LineLoginTokenVerifyResponse {
    open spec fn decode_spec(json: Json) -> Result<LineLoginTokenVerifyResponseView, Seq<char>> {
        let scope = text_at(json, "scope"@);
        let client_id = text_at(json, "client_id"@);
        let expires_in = unsigned_at(json, "expires_in"@);
        if !struct_shape(json) {
            Err(shape_text("LineLoginTokenVerifyResponse"@))
        } else if scope is Err {
            Err(scope->Err_0)
        } else if client_id is Err {
            Err(client_id->Err_0)
        } else if expires_in is Err {
            Err(expires_in->Err_0)
        } else {
            Ok(LineLoginTokenVerifyResponseView {
                scope: scope->Ok_0,
                client_id: client_id->Ok_0,
                expires_in: expires_in->Ok_0,
            })
        }
    }

    fn decode(value: &serde_json::Value) -> (r: Result<Self, String>) {
        check_shape(value, "LineLoginTokenVerifyResponse")?;
        let scope = text_field(value, "scope")?;
        let client_id = text_field(value, "client_id")?;
        let expires_in = unsigned_field(value, "expires_in")?;
        Ok(LineLoginTokenVerifyResponse { scope, client_id, expires_in })
    }

    proof fn needs_object(json: Json) {
    }
}

impl JsonEncode for LineLoginTokenVerifyResponse {
    open spec fn encode_spec(payload: LineLoginTokenVerifyResponseView) -> Json {
        let members = no_members();
        let members = with_text(members, "scope"@, payload.scope);
        let members = with_text(members, "client_id"@, payload.client_id);
        let members = with_unsigned(members, "expires_in"@, payload.expires_in);
        Json::Object(members)
    }

    fn encode(&self) -> (value: serde_json::Value) {
        let mut members = members_new();
        put_text(&mut members, "scope", &self.scope);
        put_text(&mut members, "client_id", &self.client_id);
        put_unsigned(&mut members, "expires_in", self.expires_in);
        value_of_members(members)
    }

    proof fn round_trip(payload: LineLoginTokenVerifyResponseView) {
        reveal_strlit("scope");
        reveal_strlit("client_id");
        reveal_strlit("expires_in");
        assert("scope"@.len() == 5);
        assert("client_id"@.len() == 9);
        assert("expires_in"@.len() == 10);
    }
}

/// What the token endpoint returns for a refresh token.
#[derive(Debug, Default, Clone)]
pub struct LineLoginUpdateAccessTokenResponse {
    pub token_type: String,
    pub access_token: String,
    pub refresh_token: String,
    pub expires_in: u64,
    pub scope: String,
}

pub struct LineLoginUpdateAccessTokenResponseView {
    pub token_type: Seq<char>,
    pub access_token: Seq<char>,
    pub refresh_token: Seq<char>,
    pub expires_in: u64,
    pub scope: Seq<char>,
}

impl View for LineLoginUpdateAccessTokenResponse {
    type V = LineLoginUpdateAccessTokenResponseView;

    open spec fn view(&self) -> LineLoginUpdateAccessTokenResponseView {
        LineLoginUpdateAccessTokenResponseView {
            token_type: self.token_type@,
            access_token: self.access_token@,
            refresh_token: self.refresh_token@,
            expires_in: self.expires_in,
            scope: self.scope@,
        }
    }
}

impl JsonDecode for LineLoginUpdateAccessTokenResponse {
    open spec fn decode_spec(json: Json) -> Result<LineLoginUpdateAccessTokenResponseView, Seq<char>> {
        let token_type = text_at(json, "token_type"@);
        let access_token = text_at(json, "access_token"@);
        let refresh_token = text_at(json, "refresh_token"@);
        let expires_in = unsigned_at(json, "expires_in"@);
        let scope = text_at(json, "scope"@);
        if !struct_shape(json) {
            Err(shape_text("LineLoginUpdateAccessTokenResponse"@))
        } else if token_type is Err {
            Err(token_type->Err_0)
        } else if access_token is Err {
            Err(access_token->Err_0)
        } else if refresh_token is Err {
            Err(refresh_token->Err_0)
        } else if expires_in is Err {
            Err(expires_in->Err_0)
        } else if scope is Err {
            Err(scope->Err_0)
        } else {
            Ok(LineLoginUpdateAccessTokenResponseView {
                token_type: token_type->Ok_0,
                access_token: access_token->Ok_0,
                refresh_token: refresh_token->Ok_0,
                expires_in: expires_in->Ok_0,
                scope: scope->Ok_0,
            })
        }
    }

    fn decode(value: &serde_json::Value) -> (r: Result<Self, String>) {
        check_shape(value, "LineLoginUpdateAccessTokenResponse")?;
        let token_type = text_field(value, "token_type")?;
        let access_token = text_field(value, "access_token")?;
        let refresh_token = text_field(value, "refresh_token")?;
        let expires_in = unsigned_field(value, "expires_in")?;
        let scope = text_field(value, "scope")?;
        Ok(LineLoginUpdateAccessTokenResponse { token_type, access_token, refresh_token, expires_in, scope })
    }

    proof fn needs_object(json: Json) {
    }
}

impl JsonEncode for LineLoginUpdateAccessTokenResponse {
    open spec fn encode_spec(payload: LineLoginUpdateAccessTokenResponseView) -> Json {
        let members = no_members();
        let members = with_text(members, "token_type"@, payload.token_type);
        let members = with_text(members, "access_token"@, payload.access_token);
        let members = with_text(members, "refresh_token"@, payload.refresh_token);
        let members = with_unsigned(members, "expires_in"@, payload.expires_in);
        let members = with_text(members, "scope"@, payload.scope);
        Json::Object(members)
    }

    fn encode(&self) -> (value: serde_json::Value) {
        let mut members = members_new();
        put_text(&mut members, "token_type", &self.token_type);
        put_text(&mut members, "access_token", &self.access_token);
        put_text(&mut members, "refresh_token", &self.refresh_token);
        put_unsigned(&mut members, "expires_in", self.expires_in);
        put_text(&mut members, "scope", &self.scope);
        value_of_members(members)
    }

    proof fn round_trip(payload: LineLoginUpdateAccessTokenResponseView) {
        reveal_strlit("token_type");
        reveal_strlit("access_token");
        reveal_strlit("refresh_token");
        reveal_strlit("expires_in");
        reveal_strlit("scope");
        assert("token_type"@.len() == 10);
        assert("access_token"@.len() == 12);
        assert("refresh_token"@.len() == 13);
        assert("expires_in"@.len() == 10);
        assert("scope"@.len() == 5);
        assert("token_type"@[0] != "expires_in"@[0]);
    }
}

/// The claims of a verified ID token.
#[derive(Debug, Default, Clone)]
pub struct LineLoginIdTokenVerifyResponse {
    pub iss: String,
    pub sub: String,
    pub aud: String,
    pub exp: u64,
    pub iat: u64,
    pub auth_time: Option<u64>,
    pub nonce: Option<String>,
    pub amr: Option<Vec<String>>,
    pub name: Option<String>,
    pub picture: Option<String>,
    pub email: Option<String>,
}

pub struct LineLoginIdTokenVerifyResponseView {
    pub iss: Seq<char>,
    pub sub: Seq<char>,
    pub aud: Seq<char>,
    pub exp: u64,
    pub iat: u64,
    pub auth_time: Option<u64>,
    pub nonce: Option<Seq<char>>,
    pub amr: Option<Seq<Seq<char>>>,
    pub name: Option<Seq<char>>,
    pub picture: Option<Seq<char>>,
    pub email: Option<Seq<char>>,
}

impl View for LineLoginIdTokenVerifyResponse {
    type V = LineLoginIdTokenVerifyResponseView;

    open spec fn view(&self) -> LineLoginIdTokenVerifyResponseView {
        LineLoginIdTokenVerifyResponseView {
            iss: self.iss@,
            sub: self.sub@,
            aud: self.aud@,
            exp: self.exp,
            iat: self.iat,
            auth_time: self.auth_time.deep_view(),
            nonce: self.nonce.deep_view(),
            amr: self.amr.deep_view(),
            name: self.name.deep_view(),
            picture: self.picture.deep_view(),
            email: self.email.deep_view(),
        }
    }
}

impl JsonDecode for LineLoginIdTokenVerifyResponse {
    open spec fn decode_spec(json: Json) -> Result<LineLoginIdTokenVerifyResponseView, Seq<char>> {
        let iss = text_at(json, "iss"@);
        let sub = text_at(json, "sub"@);
        let aud = text_at(json, "aud"@);
        let exp = unsigned_at(json, "exp"@);
        let iat = unsigned_at(json, "iat"@);
        let auth_time = optional_unsigned_at(json, "auth_time"@);
        let nonce = optional_text_at(json, "nonce"@);
        let amr = optional_text_list_at(json, "amr"@);
        let name = optional_text_at(json, "name"@);
        let picture = optional_text_at(json, "picture"@);
        let email = optional_text_at(json, "email"@);
        if !struct_shape(json) {
            Err(shape_text("LineLoginIdTokenVerifyResponse"@))
        } else if iss is Err {
            Err(iss->Err_0)
        } else if sub is Err {
            Err(sub->Err_0)
        } else if aud is Err {
            Err(aud->Err_0)
        } else if exp is Err {
            Err(exp->Err_0)
        } else if iat is Err {
            Err(iat->Err_0)
        } else if auth_time is Err {
            Err(auth_time->Err_0)
        } else if nonce is Err {
            Err(nonce->Err_0)
        } else if amr is Err {
            Err(amr->Err_0)
        } else if name is Err {
            Err(name->Err_0)
        } else if picture is Err {
            Err(picture->Err_0)
        } else if email is Err {
            Err(email->Err_0)
        } else {
            Ok(LineLoginIdTokenVerifyResponseView {
                iss: iss->Ok_0,
                sub: sub->Ok_0,
                aud: aud->Ok_0,
                exp: exp->Ok_0,
                iat: iat->Ok_0,
                auth_time: auth_time->Ok_0,
                nonce: nonce->Ok_0,
                amr: amr->Ok_0,
                name: name->Ok_0,
                picture: picture->Ok_0,
                email: email->Ok_0,
            })
        }
    }

    fn decode(value: &serde_json::Value) -> (r: Result<Self, String>) {
        check_shape(value, "LineLoginIdTokenVerifyResponse")?;
        let iss = text_field(value, "iss")?;
        let sub = text_field(value, "sub")?;
        let aud = text_field(value, "aud")?;
        let exp = unsigned_field(value, "exp")?;
        let iat = unsigned_field(value, "iat")?;
        let auth_time = optional_unsigned_field(value, "auth_time")?;
        let nonce = optional_text_field(value, "nonce")?;
        let amr = optional_text_list_field(value, "amr")?;
        let name = optional_text_field(value, "name")?;
        let picture = optional_text_field(value, "picture")?;
        let email = optional_text_field(value, "email")?;
        Ok(LineLoginIdTokenVerifyResponse { iss, sub, aud, exp, iat, auth_time, nonce, amr, name, picture, email })
    }

    proof fn needs_object(json: Json) {
    }
}

impl JsonEncode for LineLoginIdTokenVerifyResponse {
    open spec fn encode_spec(payload: LineLoginIdTokenVerifyResponseView) -> Json {
        let members = no_members();
        let members = with_text(members, "iss"@, payload.iss);
        let members = with_text(members, "sub"@, payload.sub);
        let members = with_text(members, "aud"@, payload.aud);
        let members = with_unsigned(members, "exp"@, payload.exp);
        let members = with_unsigned(members, "iat"@, payload.iat);
        let members = with_optional_unsigned(members, "auth_time"@, payload.auth_time);
        let members = with_optional_text(members, "nonce"@, payload.nonce);
        let members = with_optional_text_list(members, "amr"@, payload.amr);
        let members = with_optional_text(members, "name"@, payload.name);
        let members = with_optional_text(members, "picture"@, payload.picture);
        let members = with_optional_text(members, "email"@, payload.email);
        Json::Object(members)
    }

    fn encode(&self) -> (value: serde_json::Value) {
        let mut members = members_new();
        put_text(&mut members, "iss", &self.iss);
        put_text(&mut members, "sub", &self.sub);
        put_text(&mut members, "aud", &self.aud);
        put_unsigned(&mut members, "exp", self.exp);
        put_unsigned(&mut members, "iat", self.iat);
        put_optional_unsigned(&mut members, "auth_time", &self.auth_time);
        put_optional_text(&mut members, "nonce", &self.nonce);
        put_optional_text_list(&mut members, "amr", &self.amr);
        put_optional_text(&mut members, "name", &self.name);
        put_optional_text(&mut members, "picture", &self.picture);
        put_optional_text(&mut members, "email", &self.email);
        value_of_members(members)
    }

    proof fn round_trip(payload: LineLoginIdTokenVerifyResponseView) {
        reveal_strlit("iss");
        reveal_strlit("sub");
        reveal_strlit("aud");
        reveal_strlit("exp");
        reveal_strlit("iat");
        reveal_strlit("auth_time");
        reveal_strlit("nonce");
        reveal_strlit("amr");
        reveal_strlit("name");
        reveal_strlit("picture");
        reveal_strlit("email");
        assert("iss"@.len() == 3);
        assert("sub"@.len() == 3);
        assert("aud"@.len() == 3);
        assert("exp"@.len() == 3);
        assert("iat"@.len() == 3);
        assert("auth_time"@.len() == 9);
        assert("nonce"@.len() == 5);
        assert("amr"@.len() == 3);
        assert("name"@.len() == 4);
        assert("picture"@.len() == 7);
        assert("email"@.len() == 5);
        assert("iss"@[0] != "sub"@[0]);
        assert("iss"@[0] != "aud"@[0]);
        assert("iss"@[0] != "exp"@[0]);
        assert("iss"@[1] != "iat"@[1]);
        assert("iss"@[0] != "amr"@[0]);
        assert("sub"@[0] != "aud"@[0]);
        assert("sub"@[0] != "exp"@[0]);
        assert("sub"@[0] != "iat"@[0]);
        assert("sub"@[0] != "amr"@[0]);
        assert("aud"@[0] != "exp"@[0]);
        assert("aud"@[0] != "iat"@[0]);
        assert("aud"@[1] != "amr"@[1]);
        assert("exp"@[0] != "iat"@[0]);
        assert("exp"@[0] != "amr"@[0]);
        assert("iat"@[0] != "amr"@[0]);
        assert("nonce"@[0] != "email"@[0]);
        if payload.amr is Some {
            lemma_text_list_of_list_json(payload.amr->0);
        }
    }
}

/// What the user-info endpoint returns.
#[derive(Debug, Default, Clone)]
pub struct LineLoginUserInfoResponse {
    pub sub: String,
    pub name: Option<String>,
    pub picture: Option<String>,
}

pub struct LineLoginUserInfoResponseView {
    pub sub: Seq<char>,
    pub name: Option<Seq<char>>,
    pub picture: Option<Seq<char>>,
}

impl View for LineLoginUserInfoResponse {
    type V = LineLoginUserInfoResponseView;

    open spec fn view(&self) -> LineLoginUserInfoResponseView {
        LineLoginUserInfoResponseView {
            sub: self.sub@,
            name: self.name.deep_view(),
            picture: self.picture.deep_view(),
        }
    }
}

impl JsonDecode for LineLoginUserInfoResponse {
    open spec fn decode_spec(json: Json) -> Result<LineLoginUserInfoResponseView, Seq<char>> {
        let sub = text_at(json, "sub"@);
        let name = optional_text_at(json, "name"@);
        let picture = optional_text_at(json, "picture"@);
        if !struct_shape(json) {
            Err(shape_text("LineLoginUserInfoResponse"@))
        } else if sub is Err {
            Err(sub->Err_0)
        } else if name is Err {
            Err(name->Err_0)
        } else if picture is Err {
            Err(picture->Err_0)
        } else {
            Ok(LineLoginUserInfoResponseView {
                sub: sub->Ok_0,
                name: name->Ok_0,
                picture: picture->Ok_0,
            })
        }
    }

    fn decode(value: &serde_json::Value) -> (r: Result<Self, String>) {
        check_shape(value, "LineLoginUserInfoResponse")?;
        let sub = text_field(value, "sub")?;
        let name = optional_text_field(value, "name")?;
        let picture = optional_text_field(value, "picture")?;
        Ok(LineLoginUserInfoResponse { sub, name, picture })
    }

    proof fn needs_object(json: Json) {
    }
}

impl JsonEncode for LineLoginUserInfoResponse {
    open spec fn encode_spec(payload: LineLoginUserInfoResponseView) -> Json {
        let members = no_members();
        let members = with_text(members, "sub"@, payload.sub);
        let members = with_optional_text(members, "name"@, payload.name);
        let members = with_optional_text(members, "picture"@, payload.picture);
        Json::Object(members)
    }

    fn encode(&self) -> (value: serde_json::Value) {
        let mut members = members_new();
        put_text(&mut members, "sub", &self.sub);
        put_optional_text(&mut members, "name", &self.name);
        put_optional_text(&mut members, "picture", &self.picture);
        value_of_members(members)
    }

    proof fn round_trip(payload: LineLoginUserInfoResponseView) {
        reveal_strlit("sub");
        reveal_strlit("name");
        reveal_strlit("picture");
        assert("sub"@.len() == 3);
        assert("name"@.len() == 4);
        assert("picture"@.len() == 7);
    }
}

/// The user's profile.
#[derive(Debug, Default, Clone)]
pub struct LineLoginProfileResponse {
    pub user_id: String,
    pub display_name: String,
    pub picture_url: Option<String>,
    pub status_message: Option<String>,
}

pub struct LineLoginProfileResponseView {
    pub user_id: Seq<char>,
    pub display_name: Seq<char>,
    pub picture_url: Option<Seq<char>>,
    pub status_message: Option<Seq<char>>,
}

impl View for LineLoginProfileResponse {
    type V = LineLoginProfileResponseView;

    open spec fn view(&self) -> LineLoginProfileResponseView {
        LineLoginProfileResponseView {
            user_id: self.user_id@,
            display_name: self.display_name@,
            picture_url: self.picture_url.deep_view(),
            status_message: self.status_message.deep_view(),
        }
    }
}

impl JsonDecode for LineLoginProfileResponse {
    open spec fn decode_spec(json: Json) -> Result<LineLoginProfileResponseView, Seq<char>> {
        let user_id = text_at(json, "userId"@);
        let display_name = text_at(json, "displayName"@);
        let picture_url = optional_text_at(json, "pictureUrl"@);
        let status_message = optional_text_at(json, "statusMessage"@);
        if !struct_shape(json) {
            Err(shape_text("LineLoginProfileResponse"@))
        } else if user_id is Err {
            Err(user_id->Err_0)
        } else if display_name is Err {
            Err(display_name->Err_0)
        } else if picture_url is Err {
            Err(picture_url->Err_0)
        } else if status_message is Err {
            Err(status_message->Err_0)
        } else {
            Ok(LineLoginProfileResponseView {
                user_id: user_id->Ok_0,
                display_name: display_name->Ok_0,
                picture_url: picture_url->Ok_0,
                status_message: status_message->Ok_0,
            })
        }
    }

    fn decode(value: &serde_json::Value) -> (r: Result<Self, String>) {
        check_shape(value, "LineLoginProfileResponse")?;
        let user_id = text_field(value, "userId")?;
        let display_name = text_field(value, "displayName")?;
        let picture_url = optional_text_field(value, "pictureUrl")?;
        let status_message = optional_text_field(value, "statusMessage")?;
        Ok(LineLoginProfileResponse { user_id, display_name, picture_url, status_message })
    }

    proof fn needs_object(json: Json) {
    }
}

impl JsonEncode for LineLoginProfileResponse {
    open spec fn encode_spec(payload: LineLoginProfileResponseView) -> Json {
        let members = no_members();
        let members = with_text(members, "userId"@, payload.user_id);
        let members = with_text(members, "displayName"@, payload.display_name);
        let members = with_optional_text(members, "pictureUrl"@, payload.picture_url);
        let members = with_optional_text(members, "statusMessage"@, payload.status_message);
        Json::Object(members)
    }

    fn encode(&self) -> (value: serde_json::Value) {
        let mut members = members_new();
        put_text(&mut members, "userId", &self.user_id);
        put_text(&mut members, "displayName", &self.display_name);
        put_optional_text(&mut members, "pictureUrl", &self.picture_url);
        put_optional_text(&mut members, "statusMessage", &self.status_message);
        value_of_members(members)
    }

    proof fn round_trip(payload: LineLoginProfileResponseView) {
        reveal_strlit("userId");
        reveal_strlit("displayName");
        reveal_strlit("pictureUrl");
        reveal_strlit("statusMessage");
        assert("userId"@.len() == 6);
        assert("displayName"@.len() == 11);
        assert("pictureUrl"@.len() == 10);
        assert("statusMessage"@.len() == 13);
    }
}

/// Whether the user has added the channel's official account as a friend.
#[derive(Debug, Default, Clone)]
pub struct LineLoginFriendShip {
    pub friend_flag: bool,
}

pub struct LineLoginFriendShipView {
    pub friend_flag: bool,
}

impl View for LineLoginFriendShip {
    type V = LineLoginFriendShipView;

    open spec fn view(&self) -> LineLoginFriendShipView {
        LineLoginFriendShipView {
            friend_flag: self.friend_flag,
        }
    }
}

impl JsonDecode for LineLoginFriendShip {
    open spec fn decode_spec(json: Json) -> Result<LineLoginFriendShipView, Seq<char>> {
        let friend_flag = bool_at(json, "friendFlag"@);
        if !struct_shape(json) {
            Err(shape_text("LineLoginFriendShip"@))
        } else if friend_flag is Err {
            Err(friend_flag->Err_0)
        } else {
            Ok(LineLoginFriendShipView {
                friend_flag: friend_flag->Ok_0,
            })
        }
    }

    fn decode(value: &serde_json::Value) -> (r: Result<Self, String>) {
        check_shape(value, "LineLoginFriendShip")?;
        let friend_flag = bool_field(value, "friendFlag")?;
        Ok(LineLoginFriendShip { friend_flag })
    }

    proof fn needs_object(json: Json) {
    }
}

impl JsonEncode for LineLoginFriendShip {
    open spec fn encode_spec(payload: LineLoginFriendShipView) -> Json {
        let members = no_members();
        let members = with_bool(members, "friendFlag"@, payload.friend_flag);
        Json::Object(members)
    }

    fn encode(&self) -> (value: serde_json::Value) {
        let mut members = members_new();
        put_bool(&mut members, "friendFlag", self.friend_flag);
        value_of_members(members)
    }

    proof fn round_trip(payload: LineLoginFriendShipView) {
        reveal_strlit("friendFlag");
        assert("friendFlag"@.len() == 10);
    }
}

} // verus!
