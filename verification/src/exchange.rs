//! One request to a translate route as a state machine: what is awaited, what is to be done next,
//! and how the exchange is answered.
use vstd::prelude::*;
use vstd::string::*;

use crate::error::ApiError;
use crate::handlers::{
    drain_body, race_disconnect, BodyItem, Drained, JobOutcome, RaceEvent, RaceStep,
    StatusResponse, TranslatePathRequest,
};
use crate::page::{write_png, PageImage};
use crate::reply::{Reply, ReplyBody};
use crate::state::Tally;
use crate::translate::encode_png;

verus! {

use crate::error::{error_reply, ApiErrorView};
use crate::handlers::{drain_next, status_json, BodyItemView, DrainedView, TranslatePathView};
use crate::page::{bytes_view, is_png_of, png_encoding, PageImageView};
use crate::reply::{no_content, success, text_view, ReplyBodyView, ReplyView};
use crate::translate::{file_view, image_view, png_outcome_of};

/// Where the translated page goes: into the answer, or into a file on the server.
#[derive(Clone, Copy, PartialEq, Eq, Structural)]
pub enum Delivery {
    InReply,
    ToFile,
}

/// What an exchange is waiting for.
pub enum Stage {
    /// The next item of the body; so much has been drained.
    Uploading(Delivery, Vec<u8>),
    /// The next field of the multipart form.
    Scanning,
    /// The bytes of the `image` field.
    ReadingField,
    /// The parsed body of a `/translate-path` request.
    ParsingPaths,
    /// The bytes of the input file.
    ReadingInput(TranslatePathRequest),
    /// The job whose PNG goes into the answer. The flag tells whether the stream is still watched.
    Translating(bool),
    /// The job whose image goes to the given path. The flag is as above.
    TranslatingTo(String, bool),
    /// The end of writing the output file at the given path.
    Writing(String),
    /// Nothing: the exchange has been answered.
    Closed,
}

/// What happened.
pub enum Event {
    /// The stream of the body gave an item.
    Body(BodyItem),
    /// The multipart form has another field, with this name.
    Field(Option<String>),
    /// The multipart form has no further field.
    FieldsEnded,
    /// The bytes of a field were read.
    FieldBytes(Vec<u8>),
    /// The form, a field or the JSON body was rejected, for this reason.
    Rejected(String),
    /// The JSON body was parsed.
    Paths(TranslatePathRequest),
    /// The input file was read, or not, for this reason.
    Input(Result<Vec<u8>, String>),
    /// The job that ends in a PNG file ended.
    Encoded(Result<Vec<u8>, ApiError>),
    /// The job that ends in an image ended.
    Rendered(Result<PageImage, ApiError>),
    /// The job was lost.
    JobLost(String),
    /// The output file was written, or not, for this reason.
    Written(Result<(), String>),
}

/// What is to be done next.
pub enum Action {
    /// Take the next item of the body.
    NextFrame,
    /// Open this upload as a multipart form and look for its first field.
    OpenForm(Vec<u8>),
    /// Look for the next field.
    NextField,
    /// Read the bytes of this field.
    ReadField,
    /// Parse this upload as JSON.
    ParsePaths(Vec<u8>),
    /// Read the file at this path.
    ReadInput(String),
    /// Start the translation of this file, and watch the stream meanwhile.
    Translate(Vec<u8>),
    /// Go on waiting for the job alone.
    AwaitJob,
    /// Write these bytes to this path.
    WriteOutput(String, Vec<u8>),
    /// Answer.
    Answer(Reply),
    /// Stop the job, let it run out unobserved, and answer.
    Abandon(Reply),
    /// The event was not awaited and changes nothing.
    Ignore,
}

/// The contents of a [`Stage`].
pub enum StageView {
    Uploading(Delivery, Seq<u8>),
    Scanning,
    ReadingField,
    ParsingPaths,
    ReadingInput(TranslatePathView),
    Translating(bool),
    TranslatingTo(Seq<char>, bool),
    Writing(Seq<char>),
    Closed,
}

/// The contents of an [`Event`].
pub enum EventView {
    Body(BodyItemView),
    Field(Option<Seq<char>>),
    FieldsEnded,
    FieldBytes(Seq<u8>),
    Rejected(Seq<char>),
    Paths(TranslatePathView),
    Input(Result<Seq<u8>, Seq<char>>),
    Encoded(Result<Seq<u8>, ApiErrorView>),
    Rendered(Result<PageImageView, ApiErrorView>),
    JobLost(Seq<char>),
    Written(Result<(), Seq<char>>),
}

/// The contents of an [`Action`].
pub enum ActionView {
    NextFrame,
    OpenForm(Seq<u8>),
    NextField,
    ReadField,
    ParsePaths(Seq<u8>),
    ReadInput(Seq<char>),
    Translate(Seq<u8>),
    AwaitJob,
    WriteOutput(Seq<char>, Seq<u8>),
    Answer(ReplyView),
    Abandon(ReplyView),
    Ignore,
}

impl View for Stage {
    type V = StageView;

    open spec fn view(&self) -> StageView {
        match self {
            Stage::Uploading(delivery, upload) => StageView::Uploading(*delivery, upload@),
            Stage::Scanning => StageView::Scanning,
            Stage::ReadingField => StageView::ReadingField,
            Stage::ParsingPaths => StageView::ParsingPaths,
            Stage::ReadingInput(paths) => StageView::ReadingInput(paths@),
            Stage::Translating(watching) => StageView::Translating(*watching),
            Stage::TranslatingTo(path, watching) => StageView::TranslatingTo(path@, *watching),
            Stage::Writing(path) => StageView::Writing(path@),
            Stage::Closed => StageView::Closed,
        }
    }
}

/// The contents of a written file's outcome.
pub open spec fn written_view(r: Result<(), String>) -> Result<(), Seq<char>> {
    match r {
        Ok(()) => Ok(()),
        Err(text) => Err(text@),
    }
}

impl View for Event {
    type V = EventView;

    open spec fn view(&self) -> EventView {
        match self {
            Event::Body(item) => EventView::Body(item@),
            Event::Field(name) => EventView::Field(text_view(*name)),
            Event::FieldsEnded => EventView::FieldsEnded,
            Event::FieldBytes(bytes) => EventView::FieldBytes(bytes@),
            Event::Rejected(text) => EventView::Rejected(text@),
            Event::Paths(paths) => EventView::Paths(paths@),
            Event::Input(input) => EventView::Input(bytes_view(*input)),
            Event::Encoded(result) => EventView::Encoded(file_view(*result)),
            Event::Rendered(result) => EventView::Rendered(image_view(*result)),
            Event::JobLost(text) => EventView::JobLost(text@),
            Event::Written(result) => EventView::Written(written_view(*result)),
        }
    }
}

impl View for Action {
    type V = ActionView;

    open spec fn view(&self) -> ActionView {
        match self {
            Action::NextFrame => ActionView::NextFrame,
            Action::OpenForm(upload) => ActionView::OpenForm(upload@),
            Action::NextField => ActionView::NextField,
            Action::ReadField => ActionView::ReadField,
            Action::ParsePaths(upload) => ActionView::ParsePaths(upload@),
            Action::ReadInput(path) => ActionView::ReadInput(path@),
            Action::Translate(source) => ActionView::Translate(source@),
            Action::AwaitJob => ActionView::AwaitJob,
            Action::WriteOutput(path, bytes) => ActionView::WriteOutput(path@, bytes@),
            Action::Answer(reply) => ActionView::Answer(reply@),
            Action::Abandon(reply) => ActionView::Abandon(reply@),
            Action::Ignore => ActionView::Ignore,
        }
    }
}

/// The end of an exchange in an error.
pub open spec fn fail(error: ApiErrorView) -> (StageView, ActionView) {
    (StageView::Closed, ActionView::Answer(error_reply(error)))
}

/// An unreadable input file.
pub open spec fn unreadable(path: Seq<char>, text: Seq<char>) -> ApiErrorView {
    ApiErrorView::Unprocessable("cannot read "@ + path + ": "@ + text)
}

/// An unwritable output file.
pub open spec fn unwritable(path: Seq<char>, text: Seq<char>) -> ApiErrorView {
    ApiErrorView::Unprocessable("cannot write "@ + path + ": "@ + text)
}

/// While the body is drained: once complete, it is a form or a pair of paths.
pub open spec fn uploading_next(delivery: Delivery, upload: Seq<u8>, item: BodyItemView) -> (
    StageView,
    ActionView,
) {
    match drain_next(upload, item) {
        DrainedView::More(upload) => (
            StageView::Uploading(delivery, upload),
            ActionView::NextFrame,
        ),
        DrainedView::Complete(upload) => match delivery {
            Delivery::InReply => (StageView::Scanning, ActionView::OpenForm(upload)),
            Delivery::ToFile => (StageView::ParsingPaths, ActionView::ParsePaths(upload)),
        },
        DrainedView::Refused(error) => fail(error),
    }
}

/// A rendered page that goes to a file: it is encoded as PNG and written.
pub open spec fn deliver_to(path: Seq<char>, encoded: Result<Seq<u8>, Seq<char>>) -> (
    StageView,
    ActionView,
) {
    match encoded {
        Ok(png) => (StageView::Writing(path), ActionView::WriteOutput(path, png)),
        Err(text) => fail(unwritable(path, text)),
    }
}

/// The end of an exchange whose client went away.
pub open spec fn abandoned() -> (StageView, ActionView) {
    (StageView::Closed, ActionView::Abandon(no_content()))
}

/// Where an exchange goes from `stage` on `event`, and what is to be done.
pub open spec fn exchange_next(stage: StageView, event: EventView) -> (StageView, ActionView) {
    match (stage, event) {
        (StageView::Uploading(delivery, upload), EventView::Body(item)) => uploading_next(
            delivery,
            upload,
            item,
        ),
        (StageView::Scanning, EventView::Field(name)) => if name == Some("image"@) {
            (StageView::ReadingField, ActionView::ReadField)
        } else {
            (StageView::Scanning, ActionView::NextField)
        },
        (StageView::Scanning, EventView::FieldsEnded) => fail(
            ApiErrorView::BadRequest("missing multipart field `image`"@),
        ),
        (StageView::Scanning, EventView::Rejected(text)) => fail(ApiErrorView::BadRequest(text)),
        (StageView::ReadingField, EventView::FieldBytes(bytes)) => (
            StageView::Translating(true),
            ActionView::Translate(bytes),
        ),
        (StageView::ReadingField, EventView::Rejected(text)) => fail(
            ApiErrorView::BadRequest(text),
        ),
        (StageView::ParsingPaths, EventView::Paths(paths)) => (
            StageView::ReadingInput(paths),
            ActionView::ReadInput(paths.input_path),
        ),
        (StageView::ParsingPaths, EventView::Rejected(text)) => fail(
            ApiErrorView::BadRequest(text),
        ),
        (StageView::ReadingInput(paths), EventView::Input(Ok(source))) => (
            StageView::TranslatingTo(paths.output_path, true),
            ActionView::Translate(source),
        ),
        (StageView::ReadingInput(paths), EventView::Input(Err(text))) => fail(
            unreadable(paths.input_path, text),
        ),
        (StageView::Translating(_), EventView::Encoded(Ok(png))) => (
            StageView::Closed,
            ActionView::Answer(success(ReplyBodyView::Png(png))),
        ),
        (StageView::Translating(_), EventView::Encoded(Err(error))) => fail(error),
        (StageView::Translating(_), EventView::JobLost(text)) => fail(ApiErrorView::Internal(text)),
        (StageView::Translating(true), EventView::Body(BodyItemView::Failed(_))) => abandoned(),
        (StageView::Translating(true), EventView::Body(_)) => (
            StageView::Translating(false),
            ActionView::AwaitJob,
        ),
        (StageView::TranslatingTo(path, _), EventView::Rendered(Ok(image))) => deliver_to(
            path,
            png_encoding(image.width, image.height, image.pixels),
        ),
        (StageView::TranslatingTo(_, _), EventView::Rendered(Err(error))) => fail(error),
        (StageView::TranslatingTo(_, _), EventView::JobLost(text)) => fail(
            ApiErrorView::Internal(text),
        ),
        (StageView::TranslatingTo(_, true), EventView::Body(BodyItemView::Failed(_))) =>
            abandoned(),
        (StageView::TranslatingTo(path, true), EventView::Body(_)) => (
            StageView::TranslatingTo(path, false),
            ActionView::AwaitJob,
        ),
        (StageView::Writing(_), EventView::Written(Ok(()))) => (
            StageView::Closed,
            ActionView::Answer(success(ReplyBodyView::Json(status_json("ok"@)))),
        ),
        (StageView::Writing(path), EventView::Written(Err(text))) => fail(unwritable(path, text)),
        _ => (stage, ActionView::Ignore),
    }
}

/// Whether a job is under way.
pub open spec fn is_translating(stage: StageView) -> bool {
    stage is Translating || stage is TranslatingTo
}

/// Whether `event` ends an exchange in `stage`: it has not been answered before, and now is.
pub open spec fn closes(stage: StageView, event: EventView) -> bool {
    !(stage is Closed) && exchange_next(stage, event).0 is Closed
}

/// The event of a job that rendered a page, or failed to: for the answer the page is encoded as
/// PNG within the job, for a file it is handed on as it is.
pub open spec fn job_event(
    delivery: Delivery,
    rendered: Result<PageImageView, ApiErrorView>,
) -> EventView {
    match delivery {
        Delivery::InReply => EventView::Encoded(
            match rendered {
                Ok(image) => png_outcome_of(
                    png_encoding(image.width, image.height, image.pixels),
                ),
                Err(error) => Err(error),
            },
        ),
        Delivery::ToFile => EventView::Rendered(rendered),
    }
}

/// Whether an action on `event` that writes a file writes a PNG of the page that was rendered.
pub open spec fn writes_rendered_page(event: EventView, action: ActionView) -> bool {
    action matches ActionView::WriteOutput(_, png) ==> (event matches EventView::Rendered(Ok(image))
        && is_png_of(png, image))
}

/// Whether an image has pixels. Only such an image can be encoded.
pub open spec fn has_pixels(image: PageImageView) -> bool {
    image.width != 0 && image.height != 0
}

/// Whether a rendered page that goes to a file is written exactly when it has pixels.
pub open spec fn delivers_pages_with_pixels(
    stage: StageView,
    event: EventView,
    action: ActionView,
) -> bool {
    stage is TranslatingTo ==> (event matches EventView::Rendered(Ok(image)) ==> (
    action is WriteOutput <==> has_pixels(image)))
}

/// Ends the job of an exchange with what it rendered.
pub fn translated(delivery: Delivery, rendered: Result<PageImage, ApiError>) -> (r: Event)
    ensures
        r@ == job_event(delivery, image_view(rendered)),
        r@ matches EventView::Encoded(Ok(png)) ==> (rendered matches Ok(image) && is_png_of(
            png,
            image@,
        )),
        delivery == Delivery::InReply ==> (rendered matches Ok(image) ==> (
        r@ matches EventView::Encoded(Ok(_)) <==> has_pixels(image@))),
{
    match delivery {
        Delivery::InReply => Event::Encoded(
            match rendered {
                Ok(image) => encode_png(image),
                Err(error) => Err(error),
            },
        ),
        Delivery::ToFile => Event::Rendered(rendered),
    }
}

/// A request to a translate route. It holds its place in the queue, `permit`, as long as it lives.
pub struct Exchange<P> {
    permit: P,
    stage: Stage,
}

impl<P> View for Exchange<P> {
    type V = StageView;

    closed spec fn view(&self) -> StageView {
        self.stage@
    }
}

fn concat_four(a: &str, b: &str, c: &str, d: &str) -> (r: String)
    ensures
        r@ == a@ + b@ + c@ + d@,
{
    a.to_owned().concat(b).concat(c).concat(d)
}

fn failed(error: ApiError) -> (r: (Stage, Action))
    ensures
        (r.0@, r.1@) == fail(error@),
{
    (Stage::Closed, Action::Answer(error.into_response()))
}

fn uploaded(delivery: Delivery, upload: Vec<u8>, item: BodyItem) -> (r: (Stage, Action))
    ensures
        (r.0@, r.1@) == uploading_next(delivery, upload@, item@),
{
    match drain_body(upload, item) {
        Drained::More(upload) => (Stage::Uploading(delivery, upload), Action::NextFrame),
        Drained::Complete(upload) => match delivery {
            Delivery::InReply => (Stage::Scanning, Action::OpenForm(upload)),
            Delivery::ToFile => (Stage::ParsingPaths, Action::ParsePaths(upload)),
        },
        Drained::Refused(error) => failed(error),
    }
}

fn scanned(name: Option<String>) -> (r: (Stage, Action))
    ensures
        (r.0@, r.1@) == exchange_next(
            StageView::Scanning,
            EventView::Field(text_view(name)),
        ),
{
    let wanted = match name {
        Some(name) => name == "image".to_owned(),
        None => false,
    };
    if wanted {
        (Stage::ReadingField, Action::ReadField)
    } else {
        (Stage::Scanning, Action::NextField)
    }
}

fn input_read(paths: TranslatePathRequest, input: Result<Vec<u8>, String>) -> (r: (Stage, Action))
    ensures
        (r.0@, r.1@) == exchange_next(
            StageView::ReadingInput(paths@),
            EventView::Input(bytes_view(input)),
        ),
{
    match input {
        Ok(source) => (Stage::TranslatingTo(paths.output_path, true), Action::Translate(source)),
        Err(text) => failed(
            ApiError::Unprocessable(
                concat_four("cannot read ", paths.input_path.as_str(), ": ", text.as_str()),
            ),
        ),
    }
}

fn write_failed(path: &str, text: &str) -> (r: (Stage, Action))
    ensures
        (r.0@, r.1@) == fail(unwritable(path@, text@)),
{
    failed(ApiError::Unprocessable(concat_four("cannot write ", path, ": ", text)))
}

/// Goes on with an encoder's outcome for a page that goes to a file.
pub fn deliver(path: String, encoded: Result<Vec<u8>, String>) -> (r: (Stage, Action))
    ensures
        (r.0@, r.1@) == deliver_to(path@, bytes_view(encoded)),
{
    match encoded {
        Ok(png) => (Stage::Writing(path.clone()), Action::WriteOutput(path, png)),
        Err(text) => write_failed(path.as_str(), text.as_str()),
    }
}

fn rendered(path: String, image: PageImage) -> (r: (Stage, Action))
    ensures
        (r.0@, r.1@) == deliver_to(
            path@,
            png_encoding(image@.width, image@.height, image@.pixels),
        ),
        r.1@ matches ActionView::WriteOutput(_, png) ==> is_png_of(png, image@),
        r.1@ is WriteOutput <==> has_pixels(image@),
{
    let (width, height, pixels) = image.into_parts();
    deliver(path, write_png(width, height, pixels))
}

fn written(path: String, result: Result<(), String>) -> (r: (Stage, Action))
    ensures
        (r.0@, r.1@) == exchange_next(
            StageView::Writing(path@),
            EventView::Written(written_view(result)),
        ),
{
    match result {
        Ok(()) => {
            let body = StatusResponse { status: "ok" }.to_json();
            (Stage::Closed, Action::Answer(Reply::ok(ReplyBody::Json(body))))
        },
        Err(text) => write_failed(path.as_str(), text.as_str()),
    }
}

fn raced(watching: bool, event: RaceEvent<Vec<u8>>) -> (r: (Stage, Action))
    ensures
        (r.0@, r.1@) == match event {
            RaceEvent::Joined(result) => exchange_next(
                StageView::Translating(watching),
                EventView::Encoded(file_view(result)),
            ),
            RaceEvent::JobLost(text) => exchange_next(
                StageView::Translating(watching),
                EventView::JobLost(text@),
            ),
            RaceEvent::Stream(item) => exchange_next(
                StageView::Translating(true),
                EventView::Body(item@),
            ),
        },
{
    match race_disconnect(event) {
        RaceStep::Resolved(JobOutcome::Finished(Ok(png))) => (
            Stage::Closed,
            Action::Answer(Reply::ok(ReplyBody::Png(png))),
        ),
        RaceStep::Resolved(JobOutcome::Finished(Err(error))) => failed(error),
        RaceStep::Resolved(JobOutcome::Disconnected) => (
            Stage::Closed,
            Action::Abandon(Reply::no_content()),
        ),
        RaceStep::Parked => (Stage::Translating(false), Action::AwaitJob),
    }
}

fn raced_to(path: String, watching: bool, event: RaceEvent<PageImage>) -> (r: (Stage, Action))
    ensures
        (r.0@, r.1@) == match event {
            RaceEvent::Joined(result) => exchange_next(
                StageView::TranslatingTo(path@, watching),
                EventView::Rendered(image_view(result)),
            ),
            RaceEvent::JobLost(text) => exchange_next(
                StageView::TranslatingTo(path@, watching),
                EventView::JobLost(text@),
            ),
            RaceEvent::Stream(item) => exchange_next(
                StageView::TranslatingTo(path@, true),
                EventView::Body(item@),
            ),
        },
        r.1@ matches ActionView::WriteOutput(_, png) ==> (event matches RaceEvent::Joined(
            Ok(image),
        ) && is_png_of(png, image@)),
        event matches RaceEvent::Joined(Ok(image)) ==> (r.1@ is WriteOutput <==> has_pixels(
            image@,
        )),
{
    match race_disconnect(event) {
        RaceStep::Resolved(JobOutcome::Finished(Ok(image))) => rendered(path, image),
        RaceStep::Resolved(JobOutcome::Finished(Err(error))) => failed(error),
        RaceStep::Resolved(JobOutcome::Disconnected) => (
            Stage::Closed,
            Action::Abandon(Reply::no_content()),
        ),
        RaceStep::Parked => (Stage::TranslatingTo(path, false), Action::AwaitJob),
    }
}

fn advance(stage: Stage, event: Event) -> (r: (Stage, Action))
    ensures
        (r.0@, r.1@) == exchange_next(stage@, event@),
        writes_rendered_page(event@, r.1@),
        delivers_pages_with_pixels(stage@, event@, r.1@),
{
    match (stage, event) {
        (Stage::Uploading(delivery, upload), Event::Body(item)) => uploaded(delivery, upload, item),
        (Stage::Scanning, Event::Field(name)) => scanned(name),
        (Stage::Scanning, Event::FieldsEnded) => failed(
            ApiError::BadRequest("missing multipart field `image`".to_owned()),
        ),
        (Stage::Scanning, Event::Rejected(text)) => failed(ApiError::BadRequest(text)),
        (Stage::ReadingField, Event::FieldBytes(bytes)) => (
            Stage::Translating(true),
            Action::Translate(bytes),
        ),
        (Stage::ReadingField, Event::Rejected(text)) => failed(ApiError::BadRequest(text)),
        (Stage::ParsingPaths, Event::Paths(paths)) => {
            let input_path = paths.input_path.clone();
            (Stage::ReadingInput(paths), Action::ReadInput(input_path))
        },
        (Stage::ParsingPaths, Event::Rejected(text)) => failed(ApiError::BadRequest(text)),
        (Stage::ReadingInput(paths), Event::Input(input)) => input_read(paths, input),
        (Stage::Translating(watching), Event::Encoded(result)) => raced(
            watching,
            RaceEvent::Joined(result),
        ),
        (Stage::Translating(watching), Event::JobLost(text)) => raced(
            watching,
            RaceEvent::JobLost(text),
        ),
        (Stage::Translating(true), Event::Body(item)) => raced(true, RaceEvent::Stream(item)),
        (Stage::TranslatingTo(path, watching), Event::Rendered(result)) => raced_to(
            path,
            watching,
            RaceEvent::Joined(result),
        ),
        (Stage::TranslatingTo(path, watching), Event::JobLost(text)) => raced_to(
            path,
            watching,
            RaceEvent::JobLost(text),
        ),
        (Stage::TranslatingTo(path, true), Event::Body(item)) => raced_to(
            path,
            true,
            RaceEvent::Stream(item),
        ),
        (Stage::Writing(path), Event::Written(result)) => written(path, result),
        (stage, _) => (stage, Action::Ignore),
    }
}

fn closed(stage: &Stage) -> (r: bool)
    ensures
        r == (stage@ is Closed),
{
    match stage {
        Stage::Closed => true,
        _ => false,
    }
}

impl<P> Exchange<P> {
    /// The exchange's place in the queue.
    pub closed spec fn permit(self) -> P {
        self.permit
    }

    /// Opens an exchange with its place in the queue. The first thing to do is to take the first
    /// item of the body.
    pub fn open(permit: P, delivery: Delivery) -> (r: (Exchange<P>, Action))
        ensures
            r.0.permit() == permit,
            r.0@ == StageView::Uploading(delivery, Seq::empty()),
            r.1@ == ActionView::NextFrame,
    {
        let exchange = Exchange { permit, stage: Stage::Uploading(delivery, Vec::new()) };
        assert(exchange@ == StageView::Uploading(delivery, Seq::empty()));
        (exchange, Action::NextFrame)
    }

    /// Takes in an event and says what to do next, and what is to be recorded of it: the answer,
    /// whichever it is, completes the request.
    pub fn step(self, event: Event) -> (r: (Exchange<P>, Action, Tally))
        ensures
            r.0.permit() == self.permit(),
            (r.0@, r.1@) == exchange_next(self@, event@),
            writes_rendered_page(event@, r.1@),
            delivers_pages_with_pixels(self@, event@, r.1@),
            r.2 is Completed <==> !(self@ is Closed) && r.0@ is Closed,
    {
        let before = closed(&self.stage);
        let (stage, action) = advance(self.stage, event);
        let tally = if !before && closed(&stage) {
            Tally::Completed
        } else {
            Tally::Unchanged
        };
        (Exchange { permit: self.permit, stage }, action, tally)
    }
}

/// The contents of stages, events and actions are what they hold.
pub proof fn exchanges_are_shown_as_they_are(stage: Stage, event: Event, action: Action)
    ensures
        match stage {
            Stage::Uploading(delivery, upload) => stage@ == StageView::Uploading(delivery, upload@),
            Stage::Scanning => stage@ is Scanning,
            Stage::ReadingField => stage@ is ReadingField,
            Stage::ParsingPaths => stage@ is ParsingPaths,
            Stage::ReadingInput(paths) => stage@ == StageView::ReadingInput(paths@),
            Stage::Translating(watching) => stage@ == StageView::Translating(watching),
            Stage::TranslatingTo(path, watching) => stage@ == StageView::TranslatingTo(
                path@,
                watching,
            ),
            Stage::Writing(path) => stage@ == StageView::Writing(path@),
            Stage::Closed => stage@ is Closed,
        },
        match event {
            Event::Body(item) => event@ == EventView::Body(item@),
            Event::Field(Some(name)) => event@ == EventView::Field(Some(name@)),
            Event::Field(None) => event@ == EventView::Field(None),
            Event::FieldsEnded => event@ is FieldsEnded,
            Event::FieldBytes(bytes) => event@ == EventView::FieldBytes(bytes@),
            Event::Rejected(text) => event@ == EventView::Rejected(text@),
            Event::Paths(paths) => event@ == EventView::Paths(paths@),
            Event::Input(Ok(bytes)) => event@ == EventView::Input(Ok(bytes@)),
            Event::Input(Err(text)) => event@ == EventView::Input(Err(text@)),
            Event::Encoded(Ok(png)) => event@ == EventView::Encoded(Ok(png@)),
            Event::Encoded(Err(error)) => event@ == EventView::Encoded(Err(error@)),
            Event::Rendered(Ok(image)) => event@ == EventView::Rendered(Ok(image@)),
            Event::Rendered(Err(error)) => event@ == EventView::Rendered(Err(error@)),
            Event::JobLost(text) => event@ == EventView::JobLost(text@),
            Event::Written(Ok(())) => event@ == EventView::Written(Ok(())),
            Event::Written(Err(text)) => event@ == EventView::Written(Err(text@)),
        },
        match action {
            Action::NextFrame => action@ is NextFrame,
            Action::OpenForm(upload) => action@ == ActionView::OpenForm(upload@),
            Action::NextField => action@ is NextField,
            Action::ReadField => action@ is ReadField,
            Action::ParsePaths(upload) => action@ == ActionView::ParsePaths(upload@),
            Action::ReadInput(path) => action@ == ActionView::ReadInput(path@),
            Action::Translate(source) => action@ == ActionView::Translate(source@),
            Action::AwaitJob => action@ is AwaitJob,
            Action::WriteOutput(path, bytes) => action@ == ActionView::WriteOutput(path@, bytes@),
            Action::Answer(reply) => action@ == ActionView::Answer(reply@),
            Action::Abandon(reply) => action@ == ActionView::Abandon(reply@),
            Action::Ignore => action@ is Ignore,
        },
{
}

} // verus!
