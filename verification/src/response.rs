//! Turning what the transport handed back into a typed outcome.
//!
//! The provider does not always answer an error with a status of 400 or more,
//! nor a status of 400 or more with its error envelope. So both shapes are
//! tried: the one that the status points to first, the other before giving up.

use vstd::prelude::*;
use vstd::utf8::{decode_utf8, valid_utf8};
use crate::client::LineLoginClient;
use crate::codec::{decode_outcome, JsonDecode};
use crate::error::{
    LineApiError, LineApiErrorResponse, LineApiErrorResponseView, LineApiErrorView, LineHttpError,
    LineHttpErrorView, LineLoginError, LineLoginErrorView, LineSystemError, LineSystemErrorView,
};
use crate::json::{json_model, json_parse, parse_json, Json};

verus! {

pub type LineApiResponse<T> = Result<T, LineLoginError>;

/// What the transport hands back for one request.
#[derive(Debug, Clone)]
pub enum LineHttpReply {
    /// The exchange failed before any status arrived.
    Failed { message: String },
    /// A status arrived, then reading the body failed.
    Interrupted { status: u16, message: String },
    /// A status and the whole body arrived.
    Complete { status: u16, body: Vec<u8> },
}

pub enum LineHttpReplyView {
    Failed { message: Seq<char> },
    Interrupted { status: u16, message: Seq<char> },
    Complete { status: u16, body: Seq<u8> },
}

impl View for LineHttpReply {
    type V = LineHttpReplyView;

    open spec fn view(&self) -> LineHttpReplyView {
        match *self {
            LineHttpReply::Failed { message } => LineHttpReplyView::Failed { message: message@ },
            LineHttpReply::Interrupted { status, message } => LineHttpReplyView::Interrupted {
                status,
                message: message@,
            },
            LineHttpReply::Complete { status, body } => LineHttpReplyView::Complete {
                status,
                body: body@,
            },
        }
    }
}

/// The outcome of a call as a mathematical value.
pub open spec fn response_view<R: View>(r: LineApiResponse<R>) -> Result<R::V, LineLoginErrorView> {
    match r {
        Ok(payload) => Ok(payload@),
        Err(e) => Err(e@),
    }
}

/// The local failure that carries `message`.
pub open spec fn system_failure(message: Seq<char>) -> LineLoginErrorView {
    LineLoginErrorView::SystemError(LineSystemErrorView { message: Some(message) })
}

/// The failure of a reply whose body could not be read.
pub open spec fn transport_failure(status: u16, message: Seq<char>) -> LineLoginErrorView {
    LineLoginErrorView::HttpError(LineHttpErrorView { status, http_response_body: Some(message) })
}

/// The failure that the provider reported in `envelope`, in a reply with this
/// status and this body text.
pub open spec fn api_failure(
    status: u16,
    envelope: LineApiErrorResponseView,
    text: Seq<char>,
) -> LineLoginErrorView {
    LineLoginErrorView::ApiError(
        LineApiErrorView { status, error: envelope, warnings: None, http_response_body: Some(text) },
    )
}

/// The precedence between the two shapes. `envelope` is what reading the body
/// as the error envelope gave, `success` what reading it as the expected
/// payload gave. With a status of 400 or more the envelope wins where it was
/// read. Else the payload wins where it was read, then the envelope, and where
/// neither was read the failure carries the payload's diagnostic.
pub open spec fn decide<V>(
    status: u16,
    text: Seq<char>,
    envelope: Result<LineApiErrorResponseView, Seq<char>>,
    success: Result<V, Seq<char>>,
) -> Result<V, LineLoginErrorView> {
    if status >= 400 && envelope is Ok {
        Err(api_failure(status, envelope->Ok_0, text))
    } else {
        match success {
            Ok(payload) => Ok(payload),
            Err(message) => match envelope {
                Ok(e) => Err(api_failure(status, e, text)),
                Err(_) => Err(system_failure(message)),
            },
        }
    }
}

/// A shape that a body is tried as.
pub enum LineShape {
    Envelope,
    Payload,
}

/// The shapes in the order in which a body is tried as them under a status.
pub open spec fn attempt_order(status: u16) -> Seq<LineShape> {
    if status >= 400 {
        seq![LineShape::Envelope, LineShape::Payload, LineShape::Envelope]
    } else {
        seq![LineShape::Payload, LineShape::Envelope]
    }
}

/// The outcome of trying shapes in order: the first that was read decides, and
/// where none was read the failure carries `diagnostic`.
pub open spec fn first_read<V>(
    order: Seq<LineShape>,
    status: u16,
    text: Seq<char>,
    envelope: Result<LineApiErrorResponseView, Seq<char>>,
    success: Result<V, Seq<char>>,
    diagnostic: Seq<char>,
) -> Result<V, LineLoginErrorView>
    decreases order.len(),
{
    if order.len() == 0 {
        Err(system_failure(diagnostic))
    } else {
        let later = first_read(order.drop_first(), status, text, envelope, success, diagnostic);
        match order[0] {
            LineShape::Envelope => match envelope {
                Ok(e) => Err(api_failure(status, e, text)),
                Err(_) => later,
            },
            LineShape::Payload => match success {
                Ok(payload) => Ok(payload),
                Err(_) => later,
            },
        }
    }
}

/// The precedence is that of the attempts in their order: the first shape
/// that the body reads as decides the outcome.
pub proof fn decide_is_first_read<V>(
    status: u16,
    text: Seq<char>,
    envelope: Result<LineApiErrorResponseView, Seq<char>>,
    success: Result<V, Seq<char>>,
)
    ensures
        decide(status, text, envelope, success) == first_read(
            attempt_order(status),
            status,
            text,
            envelope,
            success,
            match success {
                Ok(_) => Seq::empty(),
                Err(message) => message,
            },
        ),
{
    reveal_with_fuel(first_read, 4);
    let order = attempt_order(status);
    assert(order.drop_first().len() == order.len() - 1);
    if status >= 400 {
        assert(order.drop_first() =~= seq![LineShape::Payload, LineShape::Envelope]);
        assert(order.drop_first().drop_first() =~= seq![LineShape::Envelope]);
        assert(order.drop_first().drop_first().drop_first() =~= Seq::<LineShape>::empty());
    } else {
        assert(order.drop_first() =~= seq![LineShape::Envelope]);
        assert(order.drop_first().drop_first() =~= Seq::<LineShape>::empty());
    }
}

/// The outcome for a body that was decoded into the document `json`.
pub open spec fn classify_spec<R: JsonDecode>(status: u16, text: Seq<char>, json: Json) -> Result<
    R::V,
    LineLoginErrorView,
> {
    decide(status, text, LineApiErrorResponse::decode_spec(json), R::decode_spec(json))
}

/// The diagnostic for bytes that are no UTF-8 text.
pub uninterp spec fn utf8_fault(bytes: Seq<u8>) -> Seq<char>;

/// The outcome for a body of these bytes.
pub open spec fn body_spec<R: JsonDecode>(status: u16, body: Seq<u8>) -> Result<
    R::V,
    LineLoginErrorView,
> {
    if !valid_utf8(body) {
        Err(system_failure(utf8_fault(body)))
    } else {
        match json_parse(decode_utf8(body)) {
            Err(message) => Err(system_failure(message)),
            Ok(json) => classify_spec::<R>(status, decode_utf8(body), json),
        }
    }
}

/// The outcome for what the transport handed back.
pub open spec fn reply_spec<R: JsonDecode>(reply: LineHttpReplyView) -> Result<
    R::V,
    LineLoginErrorView,
> {
    match reply {
        LineHttpReplyView::Failed { message } => Err(system_failure(message)),
        LineHttpReplyView::Interrupted { status, message } => Err(
            transport_failure(status, message),
        ),
        LineHttpReplyView::Complete { status, body } => body_spec::<R>(status, body),
    }
}

/// `String::from_utf8`: the text that the bytes encode where they are valid
/// UTF-8, else the message that the error displays, which depends on the
/// bytes alone.
#[verifier::external_body]
fn text_from_utf8(bytes: Vec<u8>) -> (r: Result<String, String>)
    ensures
        match r {
            Ok(text) => valid_utf8(bytes@) && text@ == decode_utf8(bytes@),
            Err(message) => !valid_utf8(bytes@) && message@ == utf8_fault(bytes@),
        },
{
    String::from_utf8(bytes).map_err(|e| e.to_string())
}

fn api_error(status: u16, envelope: LineApiErrorResponse, body: String) -> (e: LineLoginError)
    ensures
        e@ == api_failure(status, envelope@, body@),
{
    LineLoginError::from(
        LineApiError { status, error: envelope, warnings: None, http_response_body: Some(body) },
    )
}

fn system_error(message: String) -> (e: LineLoginError)
    ensures
        e@ == system_failure(message@),
{
    LineLoginError::from(LineSystemError::new(message))
}

/// Decides the outcome of a call from the two attempts at reading its body.
pub fn classify<R: View>(
    status: u16,
    http_response_body: String,
    envelope: Result<LineApiErrorResponse, String>,
    success: Result<R, String>,
) -> (r: LineApiResponse<R>)
    ensures
        response_view(r) == decide(
            status,
            http_response_body@,
            decode_outcome(envelope),
            decode_outcome(success),
        ),
{
    if 400 <= status {
        if let Ok(res) = envelope {
            return Err(api_error(status, res, http_response_body));
        }
    }
    match success {
        Ok(v) => Ok(v),
        Err(e) => {
            if let Ok(res) = envelope {
                return Err(api_error(status, res, http_response_body));
            }
            Err(system_error(e))
        },
    }
}

/// A reply with a status of 400 or more whose body reads as the error envelope
/// ends in an API error that carries the status, the envelope and the body
/// text. The payload is never tried against it, whatever it would accept.
pub proof fn envelope_wins_on_error_status<R: JsonDecode>(
    status: u16,
    text: Seq<char>,
    json: Json,
    envelope: LineApiErrorResponseView,
)
    requires
        status >= 400,
        LineApiErrorResponse::decode_spec(json) == Ok::<LineApiErrorResponseView, Seq<char>>(
            envelope,
        ),
    ensures
        classify_spec::<R>(status, text, json) == Err::<R::V, LineLoginErrorView>(
            api_failure(status, envelope, text),
        ),
        classify_spec::<R>(status, text, json)->Err_0.status() == status,
        classify_spec::<R>(status, text, json)->Err_0.api_error() == Some(envelope),
{
}

/// A reply with a status below 400 whose body reads as the payload ends in
/// that payload, and in no error.
pub proof fn payload_wins_on_success_status<R: JsonDecode>(
    status: u16,
    text: Seq<char>,
    json: Json,
    payload: R::V,
)
    requires
        status < 400,
        R::decode_spec(json) == Ok::<R::V, Seq<char>>(payload),
    ensures
        classify_spec::<R>(status, text, json) == Ok::<R::V, LineLoginErrorView>(payload),
{
}

/// A body that reads as the error envelope and not as the payload ends in an
/// API error, whatever the status.
pub proof fn envelope_is_the_fallback<R: JsonDecode>(
    status: u16,
    text: Seq<char>,
    json: Json,
    envelope: LineApiErrorResponseView,
)
    requires
        R::decode_spec(json) is Err,
        LineApiErrorResponse::decode_spec(json) == Ok::<LineApiErrorResponseView, Seq<char>>(
            envelope,
        ),
    ensures
        classify_spec::<R>(status, text, json) == Err::<R::V, LineLoginErrorView>(
            api_failure(status, envelope, text),
        ),
{
}

/// A body that reads neither as the payload nor as the error envelope ends in a
/// system error, whatever the status, with the diagnostic of the payload's
/// reader.
pub proof fn neither_shape_is_a_system_error<R: JsonDecode>(
    status: u16,
    text: Seq<char>,
    json: Json,
)
    requires
        R::decode_spec(json) is Err,
        LineApiErrorResponse::decode_spec(json) is Err,
    ensures
        classify_spec::<R>(status, text, json) == Err::<R::V, LineLoginErrorView>(
            system_failure(R::decode_spec(json)->Err_0),
        ),
        classify_spec::<R>(status, text, json)->Err_0.status() == 0,
{
}

/// A body whose document is no object ends in a system error, whatever the
/// status: an array is read neither as the payload nor as the error envelope.
pub proof fn non_object_is_a_system_error<R: JsonDecode>(status: u16, text: Seq<char>, json: Json)
    requires
        !(json is Object),
    ensures
        classify_spec::<R>(status, text, json) == Err::<R::V, LineLoginErrorView>(
            system_failure(R::decode_spec(json)->Err_0),
        ),
        classify_spec::<R>(status, text, json)->Err_0.status() == 0,
{
    R::needs_object(json);
    LineApiErrorResponse::needs_object(json);
}

/// A body that is no UTF-8 text ends in a system error, whatever the status.
pub proof fn invalid_utf8_is_a_system_error<R: JsonDecode>(status: u16, body: Seq<u8>)
    requires
        !valid_utf8(body),
    ensures
        reply_spec::<R>(LineHttpReplyView::Complete { status, body }) == Err::<
            R::V,
            LineLoginErrorView,
        >(system_failure(utf8_fault(body))),
{
}

/// Every reply ends in exactly one outcome: the payload or one of the three
/// kinds of error. A transport error stands for a body that could not be read
/// and for nothing else; an API error and a payload both need a body that was
/// decoded; an error other than a system error carries the status of the
/// reply.
pub proof fn outcome_kinds<R: JsonDecode>(reply: LineHttpReplyView)
    ensures
        (reply_spec::<R>(reply) is Err && reply_spec::<R>(reply)->Err_0 is HttpError) <==> reply
            is Interrupted,
        (reply_spec::<R>(reply) is Ok || (reply_spec::<R>(reply) is Err && reply_spec::<R>(
            reply,
        )->Err_0 is ApiError)) ==> (reply is Complete && valid_utf8(reply->body) && json_parse(
            decode_utf8(reply->body),
        ) is Ok),
        reply_spec::<R>(reply) matches Err(e) ==> e.status() == match reply {
            LineHttpReplyView::Failed { .. } => 0,
            LineHttpReplyView::Interrupted { status, .. } => status,
            LineHttpReplyView::Complete { status, .. } => if e is SystemError {
                0
            } else {
                status
            },
        },
        reply_spec::<R>(reply) matches Err(e) ==> (e.api_error() is Some <==> e is ApiError),
{
}

impl LineLoginClient {
    /// Classifies a reply whose body was decoded as JSON.
    pub fn http_response_text<R: JsonDecode>(
        status: u16,
        http_response_body: String,
        value: &serde_json::Value,
    ) -> (r: LineApiResponse<R>)
        ensures
            response_view(r) == classify_spec::<R>(
                status,
                http_response_body@,
                json_model(*value),
            ),
    {
        let envelope = LineApiErrorResponse::decode(value);
        let success = R::decode(value);
        classify(status, http_response_body, envelope, success)
    }

    /// Classifies a status and the bytes of a body.
    pub fn http_response_body<R: JsonDecode>(status: u16, body: Vec<u8>) -> (r: LineApiResponse<R>)
        ensures
            response_view(r) == body_spec::<R>(status, body@),
    {
        let http_response_body = match text_from_utf8(body) {
            Ok(v) => v,
            Err(e) => {
                return Err(system_error(e));
            },
        };
        let value = match parse_json(http_response_body.as_str()) {
            Ok(v) => v,
            Err(e) => {
                return Err(system_error(e));
            },
        };
        Self::http_response_text(status, http_response_body, &value)
    }

    /// Classifies what the transport handed back for one request.
    pub fn http_response<R: JsonDecode>(reply: LineHttpReply) -> (r: LineApiResponse<R>)
        ensures
            response_view(r) == reply_spec::<R>(reply@),
    {
        match reply {
            LineHttpReply::Failed { message } => Err(system_error(message)),
            LineHttpReply::Interrupted { status, message } => Err(
                LineLoginError::from(LineHttpError::new(status, message)),
            ),
            LineHttpReply::Complete { status, body } => Self::http_response_body(status, body),
        }
    }
}

} // verus!
