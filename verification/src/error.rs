//! The three kinds of failure a call can end in.

use vstd::prelude::*;

verus! {

/// The provider's error envelope: a short code and a sentence for humans.
#[derive(Debug, Clone)]
pub struct LineApiErrorResponse {
    pub error: String,
    pub error_description: String,
}

pub struct LineApiErrorResponseView {
    pub error: Seq<char>,
    pub error_description: Seq<char>,
}

impl View for LineApiErrorResponse {
    type V = LineApiErrorResponseView;

    open spec fn view(&self) -> LineApiErrorResponseView {
        LineApiErrorResponseView {
            error: self.error@,
            error_description: self.error_description@,
        }
    }
}

/// The provider reported a failure in a recognizable envelope.
#[derive(Debug, Clone)]
pub struct LineApiError {
    pub status: u16,
    pub error: LineApiErrorResponse,
    pub warnings: Option<Vec<String>>,
    pub http_response_body: Option<String>,
}

pub struct LineApiErrorView {
    pub status: u16,
    pub error: LineApiErrorResponseView,
    pub warnings: Option<Seq<Seq<char>>>,
    pub http_response_body: Option<Seq<char>>,
}

impl View for LineApiError {
    type V = LineApiErrorView;

    open spec fn view(&self) -> LineApiErrorView {
        LineApiErrorView {
            status: self.status,
            error: self.error@,
            warnings: self.warnings.deep_view(),
            http_response_body: self.http_response_body.deep_view(),
        }
    }
}

/// A status arrived, but the body could not be read.
#[derive(Debug, Clone)]
pub struct LineHttpError {
    pub status: u16,
    pub http_response_body: Option<String>,
}

pub struct LineHttpErrorView {
    pub status: u16,
    pub http_response_body: Option<Seq<char>>,
}

impl View for LineHttpError {
    type V = LineHttpErrorView;

    open spec fn view(&self) -> LineHttpErrorView {
        LineHttpErrorView {
            status: self.status,
            http_response_body: self.http_response_body.deep_view(),
        }
    }
}

impl LineHttpError {
    pub fn new(status: u16, http_response_body: String) -> (e: LineHttpError)
        ensures
            e@ == (LineHttpErrorView { status, http_response_body: Some(http_response_body@) }),
    {
        LineHttpError { status, http_response_body: Some(http_response_body) }
    }
}

/// A local failure: no status belongs to it.
#[derive(Debug, Clone)]
pub struct LineSystemError {
    pub message: Option<String>,
}

pub struct LineSystemErrorView {
    pub message: Option<Seq<char>>,
}

impl View for LineSystemError {
    type V = LineSystemErrorView;

    open spec fn view(&self) -> LineSystemErrorView {
        LineSystemErrorView { message: self.message.deep_view() }
    }
}

impl LineSystemError {
    pub fn new(message: String) -> (e: LineSystemError)
        ensures
            e@ == (LineSystemErrorView { message: Some(message@) }),
    {
        LineSystemError { message: Some(message) }
    }
}

/// Every failed call ends in exactly one of these.
#[derive(Debug, Clone)]
pub enum LineLoginError {
    ApiError(LineApiError),
    HttpError(LineHttpError),
    SystemError(LineSystemError),
}

pub enum LineLoginErrorView {
    ApiError(LineApiErrorView),
    HttpError(LineHttpErrorView),
    SystemError(LineSystemErrorView),
}

impl LineLoginErrorView {
    /// The status code an error stands for; a local failure has none and reads 0.
    pub open spec fn status(self) -> u16 {
        match self {
            LineLoginErrorView::ApiError(e) => e.status,
            LineLoginErrorView::HttpError(e) => e.status,
            LineLoginErrorView::SystemError(_) => 0,
        }
    }

    /// The provider's envelope, which only an API error carries.
    pub open spec fn api_error(self) -> Option<LineApiErrorResponseView> {
        match self {
            LineLoginErrorView::ApiError(e) => Some(e.error),
            LineLoginErrorView::HttpError(_) => None,
            LineLoginErrorView::SystemError(_) => None,
        }
    }
}

impl View for LineLoginError {
    type V = LineLoginErrorView;

    open spec fn view(&self) -> LineLoginErrorView {
        match *self {
            LineLoginError::ApiError(e) => LineLoginErrorView::ApiError(e@),
            LineLoginError::HttpError(e) => LineLoginErrorView::HttpError(e@),
            LineLoginError::SystemError(e) => LineLoginErrorView::SystemError(e@),
        }
    }
}

impl LineLoginError {
    pub fn status(&self) -> (s: u16)
        ensures
            s == self@.status(),
    {
        match self {
            LineLoginError::ApiError(e) => e.status,
            LineLoginError::HttpError(e) => e.status,
            LineLoginError::SystemError(_) => 0,
        }
    }

    pub fn api_error(&self) -> (r: Option<&LineApiErrorResponse>)
        ensures
            match r {
                Some(e) => self matches LineLoginError::ApiError(a) && *e == a.error,
                None => !(self is ApiError),
            },
            (match r {
                Some(e) => Some(e@),
                None => None,
            }) == self@.api_error(),
    {
        match self {
            LineLoginError::ApiError(e) => Some(&e.error),
            LineLoginError::HttpError(_) => None,
            LineLoginError::SystemError(_) => None,
        }
    }
}

impl From<LineApiError> for LineLoginError {
    fn from(value: LineApiError) -> (e: LineLoginError) {
        LineLoginError::ApiError(value)
    }
}

impl vstd::std_specs::convert::FromSpecImpl<LineApiError> for LineLoginError {
    open spec fn obeys_from_spec() -> bool {
        true
    }

    open spec fn from_spec(value: LineApiError) -> LineLoginError {
        LineLoginError::ApiError(value)
    }
}

impl From<LineHttpError> for LineLoginError {
    fn from(value: LineHttpError) -> (e: LineLoginError) {
        LineLoginError::HttpError(value)
    }
}

impl vstd::std_specs::convert::FromSpecImpl<LineHttpError> for LineLoginError {
    open spec fn obeys_from_spec() -> bool {
        true
    }

    open spec fn from_spec(value: LineHttpError) -> LineLoginError {
        LineLoginError::HttpError(value)
    }
}

impl From<LineSystemError> for LineLoginError {
    fn from(value: LineSystemError) -> (e: LineLoginError) {
        LineLoginError::SystemError(value)
    }
}

impl vstd::std_specs::convert::FromSpecImpl<LineSystemError> for LineLoginError {
    open spec fn obeys_from_spec() -> bool {
        true
    }

    open spec fn from_spec(value: LineSystemError) -> LineLoginError {
        LineLoginError::SystemError(value)
    }
}

} // verus!
