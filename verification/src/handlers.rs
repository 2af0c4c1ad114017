//! The translate routes: one exchange per request, from the upload to the answer.
use std::sync::Arc;
use vstd::prelude::*;
use vstd::string::*;

use crate::error::ApiError;
use crate::exchange::{Action, Delivery, Exchange};
use crate::json::{object_text, quote, Member};
use crate::reply::Reply;
use crate::state::{acquire, ServerState};

verus! {

use crate::error::{error_reply, refused_request_is_answered, ApiErrorView};
use crate::exchange::{ActionView, StageView};
use crate::json::{member_views, object, plain_text_is_quoted_verbatim, quoted};
use crate::reply::ReplyBodyView;
use crate::state::{admitted, arrival, permits_held};

/// The body of a `/translate-path` request. Paths are used verbatim.
pub struct TranslatePathRequest {
    pub input_path: String,
    pub output_path: String,
}

/// The contents of a [`TranslatePathRequest`].
pub struct TranslatePathView {
    pub input_path: Seq<char>,
    pub output_path: Seq<char>,
}

impl View for TranslatePathRequest {
    type V = TranslatePathView;

    open spec fn view(&self) -> TranslatePathView {
        TranslatePathView { input_path: self.input_path@, output_path: self.output_path@ }
    }
}

/// The answer to a `/translate-path` request whose output was written.
pub struct StatusResponse {
    pub status: &'static str,
}

/// `{"status": status}` in compact JSON.
pub open spec fn status_json(status: Seq<char>) -> Seq<char> {
    object(seq![("status"@, quoted(status))])
}

impl StatusResponse {
    /// The report as compact JSON.
    pub fn to_json(&self) -> (r: String)
        ensures
            r@ == status_json(self.status@),
    {
        let mut list: Vec<Member> = Vec::new();
        list.push(Member { key: "status", value: quote(self.status) });
        assert(member_views(list@) =~= seq![
            ("status"@, quoted(self.status@)),
        ]);
        object_text(&list)
    }
}

/// What came of a translation job: it ended, or the client went away first.
pub enum JobOutcome<T> {
    Finished(Result<T, ApiError>),
    Disconnected,
}

/// What the stream of a request body gave.
pub enum BodyItem {
    Frame(Vec<u8>),
    Failed(String),
    Ended,
}

/// The contents of a [`BodyItem`].
pub enum BodyItemView {
    Frame(Seq<u8>),
    Failed(Seq<char>),
    Ended,
}

impl View for BodyItem {
    type V = BodyItemView;

    open spec fn view(&self) -> BodyItemView {
        match self {
            BodyItem::Frame(bytes) => BodyItemView::Frame(bytes@),
            BodyItem::Failed(text) => BodyItemView::Failed(text@),
            BodyItem::Ended => BodyItemView::Ended,
        }
    }
}

/// What the drained part of a body has become.
pub enum Drained {
    More(Vec<u8>),
    Complete(Vec<u8>),
    Refused(ApiError),
}

/// The contents of a [`Drained`].
pub enum DrainedView {
    More(Seq<u8>),
    Complete(Seq<u8>),
    Refused(ApiErrorView),
}

impl View for Drained {
    type V = DrainedView;

    open spec fn view(&self) -> DrainedView {
        match self {
            Drained::More(upload) => DrainedView::More(upload@),
            Drained::Complete(upload) => DrainedView::Complete(upload@),
            Drained::Refused(error) => DrainedView::Refused(error@),
        }
    }
}

/// What becomes of the bytes drained so far on the next item of the stream: a frame is appended
/// while the whole stays within the cap, the end completes the upload, and a failure or a frame
/// beyond the cap refuses it.
pub open spec fn drain_next(upload: Seq<u8>, item: BodyItemView) -> DrainedView {
    match item {
        BodyItemView::Frame(frame) => if upload.len() + frame.len() > crate::MAX_UPLOAD_BYTES {
            DrainedView::Refused(ApiErrorView::BadRequest("upload too large"@))
        } else {
            DrainedView::More(upload + frame)
        },
        BodyItemView::Failed(text) => DrainedView::Refused(
            ApiErrorView::BadRequest("upload failed: "@ + text),
        ),
        BodyItemView::Ended => DrainedView::Complete(upload),
    }
}

/// Reads a request body to memory with a hard cap, one item at a time. A client disconnect
/// during the upload surfaces here as a failure of the stream.
pub fn drain_body(upload: Vec<u8>, item: BodyItem) -> (r: Drained)
    ensures
        r@ == drain_next(upload@, item@),
{
    match item {
        BodyItem::Frame(frame) => {
            if upload.len() > crate::MAX_UPLOAD_BYTES || frame.len() > crate::MAX_UPLOAD_BYTES
                - upload.len() {
                Drained::Refused(ApiError::BadRequest("upload too large".to_owned()))
            } else {
                let mut upload = upload;
                let mut frame = frame;
                upload.append(&mut frame);
                Drained::More(upload)
            }
        },
        BodyItem::Failed(text) => Drained::Refused(
            ApiError::BadRequest("upload failed: ".to_owned().concat(text.as_str())),
        ),
        BodyItem::Ended => Drained::Complete(upload),
    }
}

/// What a translation job and the stream of its request can do while the answer is awaited.
pub enum RaceEvent<T> {
    /// The job ended.
    Joined(Result<T, ApiError>),
    /// The job was lost, by a panic or a cancellation.
    JobLost(String),
    /// The drained stream gave another item.
    Stream(BodyItem),
}

/// Where the race between a job and a disconnect stands after an event.
pub enum RaceStep<T> {
    Resolved(JobOutcome<T>),
    Parked,
}

/// Who wins the race on an event. A failure of the stream is a disconnect; any other item of it
/// parks the disconnect detector for good.
pub open spec fn race_next<T>(event: RaceEvent<T>) -> RaceStep<T> {
    match event {
        RaceEvent::Joined(result) => RaceStep::Resolved(JobOutcome::Finished(result)),
        RaceEvent::JobLost(text) => RaceStep::Resolved(
            JobOutcome::Finished(Err(ApiError::Internal(text))),
        ),
        RaceEvent::Stream(BodyItem::Failed(_)) => RaceStep::Resolved(JobOutcome::Disconnected),
        RaceEvent::Stream(_) => RaceStep::Parked,
    }
}

/// Races a translation job against a disconnect of its client.
pub fn race_disconnect<T>(event: RaceEvent<T>) -> (r: RaceStep<T>)
    ensures
        r == race_next(event),
{
    match event {
        RaceEvent::Joined(result) => RaceStep::Resolved(JobOutcome::Finished(result)),
        RaceEvent::JobLost(text) => RaceStep::Resolved(
            JobOutcome::Finished(Err(ApiError::internal(text))),
        ),
        RaceEvent::Stream(BodyItem::Failed(_)) => RaceStep::Resolved(JobOutcome::Disconnected),
        RaceEvent::Stream(_) => RaceStep::Parked,
    }
}

/// How the counters change when a request arrives.
pub open spec fn counts_arrival(
    before: ServerState,
    after: ServerState,
    is_admitted: bool,
) -> bool {
    &&& after.counters() == arrival(before.counters(), is_admitted)
    &&& after.queue == before.queue
}

/// How a request is met: an admitted one becomes an exchange that waits for its body, a rejected
/// one is answered at once.
pub open spec fn meets<P>(
    admission: Result<P, ApiError>,
    delivery: Delivery,
    r: Result<(Exchange<P>, Action), Reply>,
) -> bool {
    match admission {
        Ok(permit) => r matches Ok((exchange, action)) && exchange.permit() == permit && exchange@
            == StageView::Uploading(delivery, Seq::empty()) && action@ == ActionView::NextFrame,
        Err(error) => r matches Err(reply) && reply@ == error_reply(error@),
    }
}

/// Meets a request, given what the queue made of it.
pub fn meet<P>(state: &mut ServerState, admission: Result<P, ApiError>, delivery: Delivery) -> (r:
    Result<(Exchange<P>, Action), Reply>)
    ensures
        counts_arrival(*old(state), *final(state), admission is Ok),
        meets(admission, delivery, r),
        final(state).received == old(state).received.wrapping_add(1),
        final(state).completed == old(state).completed,
        final(state).rejected == (if admission is Ok {
            old(state).rejected
        } else {
            old(state).rejected.wrapping_add(1)
        }),
        final(state).queue == old(state).queue,
{
    state.received = state.received.wrapping_add(1);
    match admission {
        Ok(permit) => Ok(Exchange::open(permit, delivery)),
        Err(error) => {
            state.rejected = state.rejected.wrapping_add(1);
            Err(error.into_response())
        },
    }
}

/// Meets a `/translate` request: a multipart form with an `image` field, answered with the
/// translated page as PNG. It is admitted where `queue`, the state's own, gives a permit.
pub fn translate<'q>(queue: &'q Arc<tokio::sync::Semaphore>, state: &mut ServerState) -> (r: Result<
    (Exchange<tokio::sync::SemaphorePermit<'q>>, Action),
    Reply,
>)
    requires
        *queue == old(state).queue,
    ensures
        exists|answer: Result<tokio::sync::SemaphorePermit<'q>, tokio::sync::TryAcquireError>|
            #[trigger] call_ensures(tokio::sync::Semaphore::try_acquire, (&**queue,), answer)
                && counts_arrival(*old(state), *final(state), answer is Ok) && meets(
                admitted(answer),
                Delivery::InReply,
                r,
            ),
        r matches Ok((exchange, _)) ==> permits_held(exchange.permit()) == 1,
{
    meet(state, acquire(queue), Delivery::InReply)
}

/// Meets a `/translate-path` request: a JSON body with two paths, the translated page of the one
/// written to the other. It is admitted where `queue`, the state's own, gives a permit.
pub fn translate_path<'q>(queue: &'q Arc<tokio::sync::Semaphore>, state: &mut ServerState) -> (r:
    Result<(Exchange<tokio::sync::SemaphorePermit<'q>>, Action), Reply>)
    requires
        *queue == old(state).queue,
    ensures
        exists|answer: Result<tokio::sync::SemaphorePermit<'q>, tokio::sync::TryAcquireError>|
            #[trigger] call_ensures(tokio::sync::Semaphore::try_acquire, (&**queue,), answer)
                && counts_arrival(*old(state), *final(state), answer is Ok) && meets(
                admitted(answer),
                Delivery::ToFile,
                r,
            ),
        r matches Ok((exchange, _)) ==> permits_held(exchange.permit()) == 1,
{
    meet(state, acquire(queue), Delivery::ToFile)
}

/// An admitted request becomes an exchange on its route that holds its place and waits for the first
/// item of its body; a request beyond the limit is answered with 503 at once.
pub proof fn admission_opens_an_exchange<P>(
    permit: P,
    delivery: Delivery,
    met: Result<(Exchange<P>, Action), Reply>,
    refused: Result<(Exchange<P>, Action), Reply>,
)
    requires
        meets(Ok(permit), delivery, met),
        meets(Err(ApiError::QueueFull), delivery, refused),
    ensures
        met matches Ok((exchange, action)) && exchange.permit() == permit && exchange@
            == StageView::Uploading(delivery, Seq::empty()) && action@ is NextFrame,
        refused matches Err(reply) && reply@.status == 503 && reply@.body == ReplyBodyView::Json(
            "{\"error\":\"queue full\"}"@,
        ) && reply@.log is None,
{
    refused_request_is_answered();
}

/// The counters after an arrival: one more received, one more rejected where it was refused, and no
/// other change.
pub proof fn arrival_is_counted(before: ServerState, after: ServerState, is_admitted: bool)
    requires
        counts_arrival(before, after, is_admitted),
    ensures
        after.received == before.received.wrapping_add(1),
        after.completed == before.completed,
        after.rejected == (if is_admitted {
            before.rejected
        } else {
            before.rejected.wrapping_add(1)
        }),
        after.queue == before.queue,
{
}

/// A body is put together frame by frame while it takes at most 64 MiB, 67108864 bytes; a frame
/// beyond that refuses it, and so does a break of the stream. Its end completes it as it is.
pub proof fn body_is_drained_up_to_the_cap(upload: Seq<u8>, frame: Seq<u8>, text: Seq<char>)
    ensures
        upload.len() + frame.len() <= 67108864 ==> drain_next(upload, BodyItemView::Frame(frame))
            == DrainedView::More(upload + frame),
        upload.len() + frame.len() > 67108864 ==> drain_next(upload, BodyItemView::Frame(frame))
            == DrainedView::Refused(ApiErrorView::BadRequest("upload too large"@)),
        drain_next(upload, BodyItemView::Failed(text)) == DrainedView::Refused(
            ApiErrorView::BadRequest("upload failed: "@ + text),
        ),
        drain_next(upload, BodyItemView::Ended) == DrainedView::Complete(upload),
{
}

/// The job wins the race with what it ended in, and a lost one with an internal error; only a break
/// of the stream is a disconnect, and anything else that the stream gives decides nothing.
pub proof fn race_goes_to_the_job_or_a_break<T>(
    result: Result<T, ApiError>,
    text: String,
    frame: Vec<u8>,
)
    ensures
        race_next(RaceEvent::Joined(result)) == RaceStep::Resolved(JobOutcome::Finished(result)),
        race_next(RaceEvent::<T>::JobLost(text)) == RaceStep::Resolved(
            JobOutcome::Finished(Err::<T, ApiError>(ApiError::Internal(text))),
        ),
        race_next(RaceEvent::<T>::Stream(BodyItem::Failed(text))) == RaceStep::Resolved(
            JobOutcome::<T>::Disconnected,
        ),
        race_next(RaceEvent::<T>::Stream(BodyItem::Frame(frame))) == RaceStep::<T>::Parked,
        race_next(RaceEvent::<T>::Stream(BodyItem::Ended)) == RaceStep::<T>::Parked,
{
}

/// A status is reported under its key, as a string literal.
pub proof fn status_is_reported_under_its_key(status: Seq<char>)
    ensures
        status_json(status) == "{\"status\":"@ + quoted(status) + "}"@,
{
    reveal_strlit("status");
    reveal_strlit("{\"status\":");
    reveal_strlit("}");
    plain_text_is_quoted_verbatim("status"@);
    assert("{\"status\":"@ =~= seq!['{'] + quoted("status"@) + seq![':']);
    assert("}"@ =~= seq!['}']);
    assert(status_json(status) =~= "{\"status\":"@ + quoted(status) + "}"@);
}

/// The contents of paths, of items of a body and of what was drained are what they hold.
pub proof fn requests_are_shown_as_they_are(
    paths: TranslatePathRequest,
    item: BodyItem,
    drained: Drained,
)
    ensures
        paths@.input_path == paths.input_path@,
        paths@.output_path == paths.output_path@,
        match item {
            BodyItem::Frame(bytes) => item@ == BodyItemView::Frame(bytes@),
            BodyItem::Failed(text) => item@ == BodyItemView::Failed(text@),
            BodyItem::Ended => item@ is Ended,
        },
        match drained {
            Drained::More(upload) => drained@ == DrainedView::More(upload@),
            Drained::Complete(upload) => drained@ == DrainedView::Complete(upload@),
            Drained::Refused(error) => drained@ == DrainedView::Refused(error@),
        },
{
}

} // verus!
