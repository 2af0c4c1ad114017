//! What each step of an exchange comes to, for all that it can meet.
use vstd::prelude::*;

use crate::exchange::Delivery;

verus! {

use crate::error::{error_reply, ApiErrorView};
use crate::exchange::{deliver_to, exchange_next, job_event, ActionView, EventView, StageView};
use crate::handlers::{status_is_reported_under_its_key, BodyItemView, TranslatePathView};
use crate::json::{plain_text_is_quoted_verbatim, quoted};
use crate::page::{png_encoding, PageImageView};
use crate::reply::{ReplyBodyView, ReplyView};

/// A body is taken frame by frame up to 64 MiB, 67108864 bytes, and is then a form or a pair of
/// paths, by its route; a frame beyond the cap and a break of the stream end the exchange.
pub proof fn upload_is_taken_whole_or_refused(
    delivery: Delivery,
    upload: Seq<u8>,
    frame: Seq<u8>,
    text: Seq<char>,
)
    ensures
        upload.len() + frame.len() <= 67108864 ==> exchange_next(
            StageView::Uploading(delivery, upload),
            EventView::Body(BodyItemView::Frame(frame)),
        ) == (StageView::Uploading(delivery, upload + frame), ActionView::NextFrame),
        upload.len() + frame.len() > 67108864 ==> exchange_next(
            StageView::Uploading(delivery, upload),
            EventView::Body(BodyItemView::Frame(frame)),
        ) == (
            StageView::Closed,
            ActionView::Answer(error_reply(ApiErrorView::BadRequest("upload too large"@))),
        ),
        exchange_next(
            StageView::Uploading(delivery, upload),
            EventView::Body(BodyItemView::Failed(text)),
        ) == (
            StageView::Closed,
            ActionView::Answer(error_reply(ApiErrorView::BadRequest("upload failed: "@ + text))),
        ),
        exchange_next(
            StageView::Uploading(Delivery::InReply, upload),
            EventView::Body(BodyItemView::Ended),
        ) == (StageView::Scanning, ActionView::OpenForm(upload)),
        exchange_next(
            StageView::Uploading(Delivery::ToFile, upload),
            EventView::Body(BodyItemView::Ended),
        ) == (StageView::ParsingPaths, ActionView::ParsePaths(upload)),
{
}

/// Of a form the field named `image`, and no other, is read and then translated, whatever it holds;
/// a form without it, and one that is rejected, end the exchange.
pub proof fn form_is_searched_for_its_image(
    name: Option<Seq<char>>,
    bytes: Seq<u8>,
    text: Seq<char>,
)
    ensures
        name == Some("image"@) ==> exchange_next(StageView::Scanning, EventView::Field(name)) == (
            StageView::ReadingField,
            ActionView::ReadField,
        ),
        name != Some("image"@) ==> exchange_next(StageView::Scanning, EventView::Field(name)) == (
            StageView::Scanning,
            ActionView::NextField,
        ),
        exchange_next(StageView::Scanning, EventView::FieldsEnded) == (
            StageView::Closed,
            ActionView::Answer(
                error_reply(ApiErrorView::BadRequest("missing multipart field `image`"@)),
            ),
        ),
        exchange_next(StageView::Scanning, EventView::Rejected(text)) == (
            StageView::Closed,
            ActionView::Answer(error_reply(ApiErrorView::BadRequest(text))),
        ),
        exchange_next(StageView::ReadingField, EventView::FieldBytes(bytes)) == (
            StageView::Translating(true),
            ActionView::Translate(bytes),
        ),
        exchange_next(StageView::ReadingField, EventView::Rejected(text)) == (
            StageView::Closed,
            ActionView::Answer(error_reply(ApiErrorView::BadRequest(text))),
        ),
{
}

/// Of a pair of paths the file at the first is read and translated for the second, whatever it
/// holds; paths that are rejected, and a file that cannot be read, end the exchange.
pub proof fn paths_are_followed(paths: TranslatePathView, source: Seq<u8>, text: Seq<char>)
    ensures
        exchange_next(StageView::ParsingPaths, EventView::Paths(paths)) == (
            StageView::ReadingInput(paths),
            ActionView::ReadInput(paths.input_path),
        ),
        exchange_next(StageView::ParsingPaths, EventView::Rejected(text)) == (
            StageView::Closed,
            ActionView::Answer(error_reply(ApiErrorView::BadRequest(text))),
        ),
        exchange_next(StageView::ReadingInput(paths), EventView::Input(Ok(source))) == (
            StageView::TranslatingTo(paths.output_path, true),
            ActionView::Translate(source),
        ),
        exchange_next(StageView::ReadingInput(paths), EventView::Input(Err(text))) == (
            StageView::Closed,
            ActionView::Answer(
                error_reply(
                    ApiErrorView::Unprocessable("cannot read "@ + paths.input_path + ": "@ + text),
                ),
            ),
        ),
{
}

/// The end of a job decides the answer, whether the stream is still watched or not: a PNG is sent as
/// it is, an image is encoded for its path, an error is answered, and a lost job is an internal
/// error.
pub proof fn end_of_job_decides(
    watching: bool,
    path: Seq<char>,
    png: Seq<u8>,
    image: PageImageView,
    error: ApiErrorView,
    text: Seq<char>,
)
    ensures
        exchange_next(StageView::Translating(watching), EventView::Encoded(Ok(png))) == (
            StageView::Closed,
            ActionView::Answer(
                ReplyView { status: 200, body: ReplyBodyView::Png(png), log: None },
            ),
        ),
        exchange_next(StageView::Translating(watching), EventView::Encoded(Err(error))) == (
            StageView::Closed,
            ActionView::Answer(error_reply(error)),
        ),
        exchange_next(StageView::Translating(watching), EventView::JobLost(text)) == (
            StageView::Closed,
            ActionView::Answer(error_reply(ApiErrorView::Internal(text))),
        ),
        exchange_next(
            StageView::TranslatingTo(path, watching),
            EventView::Rendered(Ok(image)),
        ) == deliver_to(path, png_encoding(image.width, image.height, image.pixels)),
        exchange_next(StageView::TranslatingTo(path, watching), EventView::Rendered(Err(error)))
            == (StageView::Closed, ActionView::Answer(error_reply(error))),
        exchange_next(StageView::TranslatingTo(path, watching), EventView::JobLost(text)) == (
            StageView::Closed,
            ActionView::Answer(error_reply(ApiErrorView::Internal(text))),
        ),
{
}

/// A page that was encoded is written to its path as it is, and one that was not is answered like a
/// file that cannot be written.
pub proof fn encoded_page_is_written(path: Seq<char>, png: Seq<u8>, text: Seq<char>)
    ensures
        deliver_to(path, Ok(png)) == (
            StageView::Writing(path),
            ActionView::WriteOutput(path, png),
        ),
        deliver_to(path, Err(text)) == (
            StageView::Closed,
            ActionView::Answer(
                error_reply(
                    ApiErrorView::Unprocessable("cannot write "@ + path + ": "@ + text),
                ),
            ),
        ),
{
}

/// While a job runs, a break of the stream ends the exchange with 204 and abandons the job, as long
/// as the stream is watched; any other item of the stream ends the watch and nothing else.
pub proof fn break_of_the_stream_abandons(path: Seq<char>, text: Seq<char>, item: BodyItemView)
    ensures
        exchange_next(
            StageView::Translating(true),
            EventView::Body(BodyItemView::Failed(text)),
        ) == (
            StageView::Closed,
            ActionView::Abandon(
                ReplyView { status: 204, body: ReplyBodyView::Empty, log: None },
            ),
        ),
        exchange_next(
            StageView::TranslatingTo(path, true),
            EventView::Body(BodyItemView::Failed(text)),
        ) == (
            StageView::Closed,
            ActionView::Abandon(
                ReplyView { status: 204, body: ReplyBodyView::Empty, log: None },
            ),
        ),
        !(item is Failed) ==> exchange_next(StageView::Translating(true), EventView::Body(item))
            == (StageView::Translating(false), ActionView::AwaitJob),
        !(item is Failed) ==> exchange_next(
            StageView::TranslatingTo(path, true),
            EventView::Body(item),
        ) == (StageView::TranslatingTo(path, false), ActionView::AwaitJob),
{
}

/// An output that was written is answered with 200 and `{"status":"ok"}`, and one that was not with
/// the path and the reason.
pub proof fn end_of_writing_is_answered(path: Seq<char>, text: Seq<char>)
    ensures
        exchange_next(StageView::Writing(path), EventView::Written(Ok(()))) == (
            StageView::Closed,
            ActionView::Answer(
                ReplyView {
                    status: 200,
                    body: ReplyBodyView::Json("{\"status\":\"ok\"}"@),
                    log: None,
                },
            ),
        ),
        exchange_next(StageView::Writing(path), EventView::Written(Err(text))) == (
            StageView::Closed,
            ActionView::Answer(
                error_reply(
                    ApiErrorView::Unprocessable("cannot write "@ + path + ": "@ + text),
                ),
            ),
        ),
{
    status_is_reported_under_its_key("ok"@);
    reveal_strlit("ok");
    reveal_strlit("{\"status\":");
    reveal_strlit("}");
    reveal_strlit("{\"status\":\"ok\"}");
    plain_text_is_quoted_verbatim("ok"@);
    assert("{\"status\":"@ + quoted("ok"@) + "}"@ =~= "{\"status\":\"ok\"}"@);
}

/// What an exchange is not waiting for changes nothing.
pub proof fn exchange_ignores_what_it_does_not_await(stage: StageView, event: EventView)
    requires
        match stage {
            StageView::Uploading(_, _) => !(event is Body),
            StageView::Scanning => !(event is Field) && !(event is FieldsEnded) && !(
            event is Rejected),
            StageView::ReadingField => !(event is FieldBytes) && !(event is Rejected),
            StageView::ParsingPaths => !(event is Paths) && !(event is Rejected),
            StageView::ReadingInput(_) => !(event is Input),
            StageView::Translating(watching) => !(event is Encoded) && !(event is JobLost) && !(
            watching && event is Body),
            StageView::TranslatingTo(_, watching) => !(event is Rendered) && !(event is JobLost)
                && !(watching && event is Body),
            StageView::Writing(_) => !(event is Written),
            StageView::Closed => true,
        },
    ensures
        exchange_next(stage, event) == (stage, ActionView::Ignore),
{
}

/// A job ends in what its route delivers: the PNG of the page for the answer, or why there is none,
/// and the page itself for a file. An error stays what it is.
pub proof fn job_ends_in_what_its_route_delivers(image: PageImageView, error: ApiErrorView)
    ensures
        match png_encoding(image.width, image.height, image.pixels) {
            Ok(png) => job_event(Delivery::InReply, Ok(image)) == EventView::Encoded(Ok(png)),
            Err(text) => job_event(Delivery::InReply, Ok(image)) == EventView::Encoded(
                Err(ApiErrorView::Internal(text)),
            ),
        },
        job_event(Delivery::InReply, Err(error)) == EventView::Encoded(Err(error)),
        job_event(Delivery::ToFile, Ok(image)) == EventView::Rendered(Ok(image)),
        job_event(Delivery::ToFile, Err(error)) == EventView::Rendered(Err(error)),
{
}

} // verus!
