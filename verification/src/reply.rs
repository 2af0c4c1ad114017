//! What the service answers: a status code, a body, and what goes to the server's own log.
use vstd::prelude::*;
use vstd::string::*;

verus! {

/// The body of an answer.
#[derive(Debug)]
pub enum ReplyBody {
    Empty,
    Json(String),
    Png(Vec<u8>),
}

/// An answer to a request. `log` is for the server's log only and is never sent.
#[derive(Debug)]
pub struct Reply {
    pub status: u16,
    pub body: ReplyBody,
    pub log: Option<String>,
}

/// The contents of a [`ReplyBody`].
pub enum ReplyBodyView {
    Empty,
    Json(Seq<char>),
    Png(Seq<u8>),
}

/// The contents of a [`Reply`].
pub struct ReplyView {
    pub status: u16,
    pub body: ReplyBodyView,
    pub log: Option<Seq<char>>,
}

/// The contents of an optional text.
pub open spec fn text_view(text: Option<String>) -> Option<Seq<char>> {
    match text {
        Some(text) => Some(text@),
        None => None,
    }
}

impl View for ReplyBody {
    type V = ReplyBodyView;

    open spec fn view(&self) -> ReplyBodyView {
        match self {
            ReplyBody::Empty => ReplyBodyView::Empty,
            ReplyBody::Json(text) => ReplyBodyView::Json(text@),
            ReplyBody::Png(bytes) => ReplyBodyView::Png(bytes@),
        }
    }
}

impl View for Reply {
    type V = ReplyView;

    open spec fn view(&self) -> ReplyView {
        ReplyView { status: self.status, body: self.body@, log: text_view(self.log) }
    }
}

/// The media type that goes with a body; an empty body has none.
pub open spec fn content_type_of(body: ReplyBodyView) -> Option<Seq<char>> {
    match body {
        ReplyBodyView::Empty => None,
        ReplyBodyView::Json(_) => Some("application/json"@),
        ReplyBodyView::Png(_) => Some("image/png"@),
    }
}

/// An answer with status 200 and the given body, and nothing for the log.
pub open spec fn success(body: ReplyBodyView) -> ReplyView {
    ReplyView { status: 200, body, log: None }
}

/// The answer to a client that is gone: 204 and no body.
pub open spec fn no_content() -> ReplyView {
    ReplyView { status: 204, body: ReplyBodyView::Empty, log: None }
}

impl Reply {
    /// An answer with status 200.
    pub fn ok(body: ReplyBody) -> (r: Reply)
        ensures
            r@ == success(body@),
            r == (Reply { status: 200, body, log: None }),
    {
        Reply { status: 200, body, log: None }
    }

    /// The answer to a client that is gone.
    pub fn no_content() -> (r: Reply)
        ensures
            r@ == no_content(),
            r == (Reply { status: 204, body: ReplyBody::Empty, log: None }),
    {
        Reply { status: 204, body: ReplyBody::Empty, log: None }
    }

    /// The value of the `content-type` header, where the answer has one.
    pub fn content_type(&self) -> (r: Option<&'static str>)
        ensures
            match r {
                Some(media_type) => content_type_of(self@.body) == Some(media_type@),
                None => content_type_of(self@.body) is None,
            },
            self.body is Png ==> (r matches Some(media_type) && media_type@ == "image/png"@),
            self.body is Json ==> (r matches Some(media_type) && media_type@
                == "application/json"@),
            self.body is Empty ==> r is None,
    {
        match &self.body {
            ReplyBody::Empty => None,
            ReplyBody::Json(_) => Some("application/json"),
            ReplyBody::Png(_) => Some("image/png"),
        }
    }
}

/// The media type rests on the kind of the body alone: a PNG is `image/png` and a JSON text is
/// `application/json`, whatever they hold, and an empty body has none.
pub proof fn media_type_rests_on_the_kind_of_body(png: Seq<u8>, text: Seq<char>)
    ensures
        content_type_of(ReplyBodyView::Png(png)) == Some("image/png"@),
        content_type_of(ReplyBodyView::Json(text)) == Some("application/json"@),
        content_type_of(ReplyBodyView::Empty) is None,
{
}

/// The contents of an answer are its status, its body and its log, each as it is.
pub proof fn reply_is_shown_as_it_is(reply: Reply)
    ensures
        reply@.status == reply.status,
        match reply.body {
            ReplyBody::Empty => reply@.body is Empty,
            ReplyBody::Json(text) => reply@.body == ReplyBodyView::Json(text@),
            ReplyBody::Png(bytes) => reply@.body == ReplyBodyView::Png(bytes@),
        },
        match reply.log {
            Some(text) => reply@.log == Some(text@),
            None => reply@.log is None,
        },
{
}

/// The contents of an optional text are those of the text, where there is one.
pub proof fn optional_text_is_shown_as_it_is(text: String)
    ensures
        text_view(Some(text)) == Some(text@),
        text_view(None) is None,
{
}

/// A success is answered with 200 and its body, a client that is gone with 204 and nothing; neither
/// leaves a trace in the log.
pub proof fn success_is_200_and_absence_204(body: ReplyBodyView)
    ensures
        success(body).status == 200,
        success(body).body == body,
        success(body).log is None,
        no_content().status == 204,
        no_content().body is Empty,
        no_content().log is None,
{
}

} // verus!
