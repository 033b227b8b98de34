//! Typed client binding for the LINE Login API, without the transport.
//!
//! The crate builds the description of each outbound request (method, URL,
//! headers, body) and classifies each reply (status code and body bytes) into a
//! typed payload or one of three kinds of error. Sending a request is left to
//! the caller.

pub mod api;
pub mod client;
pub mod codec;
pub mod error;
pub mod json;
pub mod request;
pub mod response;

pub use error::{LineApiError, LineApiErrorResponse, LineHttpError, LineLoginError, LineSystemError};
pub use error::{
    LineApiErrorResponseView, LineApiErrorView, LineHttpErrorView, LineLoginErrorView,
    LineSystemErrorView,
};
pub use api::payload::{
    LineLoginCreateTokenResponse, LineLoginEmptyResponse, LineLoginFriendShip,
    LineLoginIdTokenVerifyResponse, LineLoginProfileResponse, LineLoginTokenVerifyResponse,
    LineLoginUpdateAccessTokenResponse, LineLoginUserInfoResponse,
};
pub use client::LineLoginClient;
pub use response::{LineApiResponse, LineHttpReply, LineHttpReplyView};
pub use request::{FormPayload, LineHttpMethod, LineRequest, LineRequestView};
pub use api::{LineCall, LineLoginCreateTokenRequest, LineLoginIdTokenVerifyRequest};
