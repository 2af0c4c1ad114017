//! Errors surfaced to HTTP clients, and how each is answered.
use vstd::prelude::*;
use vstd::string::*;

use crate::json::{quote, object_text, Member};
use crate::reply::{Reply, ReplyBody};

verus! {

use crate::json::{member_views, object, plain_text_is_quoted_verbatim, quoted, quoted_is_injective};
use crate::reply::{ReplyBodyView, ReplyView};

/// Errors surfaced to HTTP clients. Full details go to the log; responses carry only the short
/// message.
#[derive(Debug)]
pub enum ApiError {
    BadRequest(String),
    Unprocessable(String),
    QueueFull,
    Internal(String),
}

/// The contents of an [`ApiError`].
pub enum ApiErrorView {
    BadRequest(Seq<char>),
    Unprocessable(Seq<char>),
    QueueFull,
    Internal(Seq<char>),
}

impl View for ApiError {
    type V = ApiErrorView;

    open spec fn view(&self) -> ApiErrorView {
        match self {
            ApiError::BadRequest(text) => ApiErrorView::BadRequest(text@),
            ApiError::Unprocessable(text) => ApiErrorView::Unprocessable(text@),
            ApiError::QueueFull => ApiErrorView::QueueFull,
            ApiError::Internal(detail) => ApiErrorView::Internal(detail@),
        }
    }
}

/// The HTTP status code of an error.
pub open spec fn status_of(error: ApiErrorView) -> u16 {
    match error {
        ApiErrorView::BadRequest(_) => 400,
        ApiErrorView::Unprocessable(_) => 422,
        ApiErrorView::QueueFull => 503,
        ApiErrorView::Internal(_) => 500,
    }
}

/// The short message of an error. The detail of an internal error is no part of it.
pub open spec fn message_of(error: ApiErrorView) -> Seq<char> {
    match error {
        ApiErrorView::BadRequest(text) => "bad request: "@ + text,
        ApiErrorView::Unprocessable(text) => "unprocessable: "@ + text,
        ApiErrorView::QueueFull => "queue full"@,
        ApiErrorView::Internal(_) => "internal error"@,
    }
}

/// `{"error": message}` in compact JSON.
pub open spec fn error_body(message: Seq<char>) -> Seq<char> {
    object(seq![("error"@, quoted(message))])
}

/// The answer to an error.
pub open spec fn error_reply(error: ApiErrorView) -> ReplyView {
    ReplyView {
        status: status_of(error),
        body: ReplyBodyView::Json(error_body(message_of(error))),
        log: match error {
            ApiErrorView::Internal(detail) => Some(detail),
            _ => None,
        },
    }
}

impl ApiError {
    /// An internal error with its full detail.
    pub fn internal(detail: String) -> (r: Self)
        ensures
            r == ApiError::Internal(detail),
    {
        ApiError::Internal(detail)
    }

    /// The HTTP status code.
    pub fn status(&self) -> (r: u16)
        ensures
            r == status_of(self@),
    {
        match self {
            ApiError::BadRequest(_) => 400,
            ApiError::Unprocessable(_) => 422,
            ApiError::QueueFull => 503,
            ApiError::Internal(_) => 500,
        }
    }

    /// The short message that the client sees.
    pub fn message(&self) -> (r: String)
        ensures
            r@ == message_of(self@),
    {
        match self {
            ApiError::BadRequest(text) => "bad request: ".to_owned().concat(text.as_str()),
            ApiError::Unprocessable(text) => "unprocessable: ".to_owned().concat(text.as_str()),
            ApiError::QueueFull => "queue full".to_owned(),
            ApiError::Internal(_) => "internal error".to_owned(),
        }
    }

    /// The answer to this error: its status, its short message as JSON, and the detail of an
    /// internal error for the log.
    pub fn into_response(self) -> (r: Reply)
        ensures
            r@ == error_reply(self@),
    {
        let status: u16 = self.status();
        let message = self.message();
        let mut list: Vec<Member> = Vec::new();
        list.push(Member { key: "error", value: quote(message.as_str()) });
        let body = object_text(&list);
        assert(member_views(list@) =~= seq![("error"@, quoted(message@))]);
        let log = match self {
            ApiError::Internal(detail) => Some(detail),
            _ => None,
        };
        Reply { status, body: ReplyBody::Json(body), log }
    }
}

proof fn lemma_error_body(message: Seq<char>)
    ensures
        error_body(message) == "{\"error\":"@ + quoted(message) + "}"@,
{
    reveal_strlit("error");
    reveal_strlit("{\"error\":");
    reveal_strlit("}");
    plain_text_is_quoted_verbatim("error"@);
    assert("{\"error\":"@ =~= seq!['{'] + quoted("error"@) + seq![':']);
    assert("}"@ =~= seq!['}']);
    assert(error_body(message) =~= "{\"error\":"@ + quoted(message) + "}"@);
}

/// A refused request is answered with 503 and `{"error":"queue full"}`.
pub proof fn refused_request_is_answered()
    ensures
        error_reply(ApiErrorView::QueueFull) == (ReplyView {
            status: 503,
            body: ReplyBodyView::Json("{\"error\":\"queue full\"}"@),
            log: None,
        }),
{
    lemma_error_body("queue full"@);
    reveal_strlit("queue full");
    reveal_strlit("{\"error\":");
    reveal_strlit("}");
    reveal_strlit("{\"error\":\"queue full\"}");
    plain_text_is_quoted_verbatim("queue full"@);
    assert(error_body("queue full"@) =~= "{\"error\":\"queue full\"}"@);
}

/// The detail of an internal error reaches the log and nothing else: two internal errors get the
/// same status and the same body, whatever went wrong.
pub proof fn internal_detail_is_not_sent(a: Seq<char>, b: Seq<char>)
    ensures
        error_reply(ApiErrorView::Internal(a)).status == error_reply(
            ApiErrorView::Internal(b),
        ).status,
        error_reply(ApiErrorView::Internal(a)).body == error_reply(ApiErrorView::Internal(b)).body,
        error_reply(ApiErrorView::Internal(a)).log == Some(a),
{
}

/// Only internal errors leave a trace in the log.
pub proof fn only_internal_errors_are_logged(error: ApiErrorView)
    ensures
        error_reply(error).log is Some <==> error is Internal,
{
}

/// The status code tells the kinds of error apart, and each is an error status.
pub proof fn status_tells_kinds_apart(a: ApiErrorView, b: ApiErrorView)
    ensures
        400 <= status_of(a) < 600,
        status_of(a) == status_of(b) <==> (a is BadRequest <==> b is BadRequest) && (
        a is Unprocessable <==> b is Unprocessable) && (a is QueueFull <==> b is QueueFull) && (
        a is Internal <==> b is Internal),
{
}

/// The body gives the message back: errors with different messages get different bodies.
pub proof fn body_determines_message(a: ApiErrorView, b: ApiErrorView)
    requires
        error_reply(a).body == error_reply(b).body,
    ensures
        message_of(a) == message_of(b),
{
    let left = message_of(a);
    let right = message_of(b);
    lemma_error_body(left);
    lemma_error_body(right);
    let head = "{\"error\":"@;
    let tail = "}"@;
    assert(error_body(left).len() == error_body(right).len());
    assert(quoted(left) =~= error_body(left).subrange(
        head.len() as int,
        error_body(left).len() - tail.len(),
    ));
    assert(quoted(right) =~= error_body(right).subrange(
        head.len() as int,
        error_body(right).len() - tail.len(),
    ));
    quoted_is_injective(left, right);
}

/// What a client and the log see of an error: 400, 422 and 503 for what the client can mend, with
/// the reason behind the kind of error, and 500 for the rest, with the detail in the log alone.
pub proof fn errors_are_answered_by_kind(text: Seq<char>)
    ensures
        error_reply(ApiErrorView::BadRequest(text)) == (ReplyView {
            status: 400,
            body: ReplyBodyView::Json("{\"error\":"@ + quoted("bad request: "@ + text) + "}"@),
            log: None,
        }),
        error_reply(ApiErrorView::Unprocessable(text)) == (ReplyView {
            status: 422,
            body: ReplyBodyView::Json("{\"error\":"@ + quoted("unprocessable: "@ + text) + "}"@),
            log: None,
        }),
        error_reply(ApiErrorView::QueueFull) == (ReplyView {
            status: 503,
            body: ReplyBodyView::Json("{\"error\":"@ + quoted("queue full"@) + "}"@),
            log: None,
        }),
        error_reply(ApiErrorView::Internal(text)) == (ReplyView {
            status: 500,
            body: ReplyBodyView::Json("{\"error\":"@ + quoted("internal error"@) + "}"@),
            log: Some(text),
        }),
{
    lemma_error_body("bad request: "@ + text);
    lemma_error_body("unprocessable: "@ + text);
    lemma_error_body("queue full"@);
    lemma_error_body("internal error"@);
}

/// The status and the message of an error are those that it is answered with.
pub proof fn status_and_message_are_answered(error: ApiErrorView)
    ensures
        error_reply(error).status == status_of(error),
        error_reply(error).body == ReplyBodyView::Json(
            "{\"error\":"@ + quoted(message_of(error)) + "}"@,
        ),
{
    lemma_error_body(message_of(error));
}

/// The contents of an error are its kind and its text.
pub proof fn error_is_shown_as_it_is(error: ApiError)
    ensures
        match error {
            ApiError::BadRequest(text) => error@ == ApiErrorView::BadRequest(text@),
            ApiError::Unprocessable(text) => error@ == ApiErrorView::Unprocessable(text@),
            ApiError::QueueFull => error@ is QueueFull,
            ApiError::Internal(detail) => error@ == ApiErrorView::Internal(detail@),
        },
{
}

} // verus!
