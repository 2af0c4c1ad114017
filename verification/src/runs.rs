//! What holds of whole exchanges, whatever events they meet.
use vstd::prelude::*;

use crate::exchange::Delivery;
use crate::state::Tally;

verus! {

use crate::error::{error_reply, ApiErrorView};
use crate::exchange::{
    closes, exchange_next, is_translating, job_event, unreadable, unwritable, ActionView,
    EventView, StageView,
};
use crate::handlers::{status_json, BodyItemView, TranslatePathView};
use crate::page::{png_encoding, PageImageView};
use crate::reply::{content_type_of, no_content, success, ReplyBodyView, ReplyView};
use crate::state::{arrival, recorded, Counters};
use crate::translate::{
    page_draft_of, page_next, page_start, PageActionView, PageEventView, PageStageView,
};

/// An exchange after some events: where it is, what was to be done on the way, without what was
/// ignored, and how many times it was counted as completed.
pub struct Run {
    pub stage: StageView,
    pub actions: Seq<ActionView>,
    pub completed: nat,
}

/// The run of an exchange that starts in `stage` and meets `events`.
pub open spec fn run(stage: StageView, events: Seq<EventView>) -> Run
    decreases events.len(),
{
    if events.len() == 0 {
        Run { stage, actions: Seq::empty(), completed: 0 }
    } else {
        let before = run(stage, events.drop_last());
        let (after, action) = exchange_next(before.stage, events.last());
        Run {
            stage: after,
            actions: if action is Ignore {
                before.actions
            } else {
                before.actions.push(action)
            },
            completed: before.completed + if closes(before.stage, events.last()) {
                1nat
            } else {
                0nat
            },
        }
    }
}

/// The run of an exchange from its opening.
pub open spec fn run_of(delivery: Delivery, events: Seq<EventView>) -> Run {
    run(StageView::Uploading(delivery, Seq::empty()), events)
}

/// Whether an action ends its exchange.
pub open spec fn ends(action: ActionView) -> bool {
    action is Answer || action is Abandon
}

/// Whether some action started a translation.
pub open spec fn has_started(actions: Seq<ActionView>) -> bool {
    exists|i: int| 0 <= i < actions.len() && (#[trigger] actions[i]) is Translate
}

/// Whether some action wrote a file.
pub open spec fn has_written(actions: Seq<ActionView>) -> bool {
    exists|i: int| 0 <= i < actions.len() && (#[trigger] actions[i]) is WriteOutput
}

/// Whether the job of the exchange claims that the queue is full, which no translation does.
pub open spec fn claims_full_queue(event: EventView) -> bool {
    ||| event == EventView::Encoded(Err(ApiErrorView::QueueFull))
    ||| event == EventView::Rendered(Err(ApiErrorView::QueueFull))
}

spec fn is_orderly(r: Run) -> bool {
    &&& forall|i: int| 0 <= i < r.actions.len() - 1 ==> !ends(#[trigger] r.actions[i])
    &&& r.stage is Closed <==> r.actions.len() > 0 && ends(r.actions.last())
    &&& forall|i: int, j: int|
        0 <= i < r.actions.len() && 0 <= j < r.actions.len() && (#[trigger] r.actions[i])
            is Translate && (#[trigger] r.actions[j]) is Translate ==> i == j
    &&& r.completed == (if r.stage is Closed {
        1nat
    } else {
        0nat
    })
    &&& is_translating(r.stage) || r.stage is Writing ==> has_started(r.actions)
    &&& has_started(r.actions) ==> is_translating(r.stage) || r.stage is Writing || r.stage is Closed
    &&& r.stage matches StageView::Uploading(_, upload) ==> upload.len() <= crate::MAX_UPLOAD_BYTES
}

spec fn is_on_its_route(delivery: Delivery, r: Run) -> bool {
    &&& r.stage matches StageView::Uploading(d, _) ==> d == delivery
    &&& delivery == Delivery::InReply ==> !(r.stage is ParsingPaths) && !(
    r.stage is ReadingInput) && !(r.stage is TranslatingTo) && !(r.stage is Writing)
    &&& delivery == Delivery::ToFile ==> !(r.stage is Scanning) && !(r.stage is ReadingField) && !(
    r.stage is Translating)
    &&& r.stage is Writing ==> has_written(r.actions)
}

spec fn is_answered_properly(delivery: Delivery, r: Run) -> bool {
    r.stage is Closed ==> match r.actions.last() {
        ActionView::Answer(reply) => {
            &&& reply.status == 200 || reply.status == 400 || reply.status == 422 || reply.status
                == 500 || reply.status == 503
            &&& reply.status == 200 ==> has_started(r.actions) && match delivery {
                Delivery::InReply => reply.body is Png,
                Delivery::ToFile => has_written(r.actions) && reply == success(
                    ReplyBodyView::Json(status_json("ok"@)),
                ),
            }
            &&& !has_started(r.actions) ==> reply.status == 400 || reply.status == 422
        },
        ActionView::Abandon(reply) => reply == no_content() && has_started(r.actions),
        _ => false,
    }
}

proof fn lemma_run(delivery: Delivery, events: Seq<EventView>)
    ensures
        is_orderly(run_of(delivery, events)),
        is_on_its_route(delivery, run_of(delivery, events)),
        is_answered_properly(delivery, run_of(delivery, events)),
    decreases events.len(),
{
    if events.len() > 0 {
        lemma_run(delivery, events.drop_last());
        let before = run_of(delivery, events.drop_last());
        let after = run_of(delivery, events);
        let event = events.last();
        let (stage, action) = exchange_next(before.stage, event);
        if !(action is Ignore) {
            assert(after.actions.last() == action);
            assert(forall|i: int|
                0 <= i < before.actions.len() ==> after.actions[i] == before.actions[i]);
            if has_started(before.actions) {
                let i = choose|i: int|
                    0 <= i < before.actions.len() && (#[trigger] before.actions[i]) is Translate;
                assert(after.actions[i] is Translate);
            }
            if has_written(before.actions) {
                let i = choose|i: int|
                    0 <= i < before.actions.len() && (#[trigger] before.actions[i]) is WriteOutput;
                assert(after.actions[i] is WriteOutput);
            }
            if action is Translate {
                assert(after.actions[after.actions.len() - 1] is Translate);
            }
            if action is WriteOutput {
                assert(after.actions[after.actions.len() - 1] is WriteOutput);
            }
        }
    }
}

/// An exchange is answered at most once, and the answer is the last thing that it asks for: it
/// has been answered exactly when it is closed.
pub proof fn exchange_is_answered_once(delivery: Delivery, events: Seq<EventView>)
    ensures
        ({
            let r = run_of(delivery, events);
            &&& forall|i: int| 0 <= i < r.actions.len() - 1 ==> !ends(#[trigger] r.actions[i])
            &&& r.stage is Closed <==> r.actions.len() > 0 && ends(r.actions.last())
        }),
{
    lemma_run(delivery, events);
}

/// What happens after the answer changes nothing.
pub proof fn closed_exchange_stays_closed(event: EventView)
    ensures
        exchange_next(StageView::Closed, event) == (StageView::Closed, ActionView::Ignore),
        !closes(StageView::Closed, event),
{
}

/// An exchange starts at most one translation.
pub proof fn translation_is_started_once(delivery: Delivery, events: Seq<EventView>)
    ensures
        ({
            let r = run_of(delivery, events);
            forall|i: int, j: int|
                0 <= i < r.actions.len() && 0 <= j < r.actions.len() && (#[trigger] r.actions[i])
                    is Translate && (#[trigger] r.actions[j]) is Translate ==> i == j
        }),
{
    lemma_run(delivery, events);
}

/// An admitted request is counted as completed exactly once when it is answered, whichever the
/// answer is, and not before.
pub proof fn answered_exchange_is_counted_once(delivery: Delivery, events: Seq<EventView>)
    ensures
        run_of(delivery, events).completed == (if run_of(delivery, events).stage is Closed {
            1nat
        } else {
            0nat
        }),
{
    lemma_run(delivery, events);
}

/// A `/translate-path` request is answered with 200 only after its output was written, and then
/// with `{"status": "ok"}`; a `/translate` request that is answered with 200 gets a PNG.
pub proof fn success_means_delivery(delivery: Delivery, events: Seq<EventView>)
    requires
        run_of(delivery, events).stage is Closed,
    ensures
        ({
            let r = run_of(delivery, events);
            r.actions.last() matches ActionView::Answer(reply) ==> (reply.status == 200
                ==> match delivery {
                Delivery::InReply => reply.body is Png,
                Delivery::ToFile => has_written(r.actions) && reply == success(
                    ReplyBodyView::Json(status_json("ok"@)),
                ),
            })
        }),
{
    lemma_run(delivery, events);
}

/// Something that happens to the service: a request arrives on a route and is admitted or not, or
/// an exchange that was opened meets an event.
pub enum Happening {
    Arrived(Delivery, bool),
    Stepped(int, EventView),
}

/// The service: its counters, and the exchanges that were opened, in the order of their arrival.
pub struct Server {
    pub counters: Counters,
    pub exchanges: Seq<StageView>,
}

/// The service after something happened.
pub open spec fn server_next(server: Server, happening: Happening) -> Server {
    match happening {
        Happening::Arrived(delivery, is_admitted) => Server {
            counters: arrival(server.counters, is_admitted),
            exchanges: if is_admitted {
                server.exchanges.push(StageView::Uploading(delivery, Seq::empty()))
            } else {
                server.exchanges
            },
        },
        Happening::Stepped(i, event) => if 0 <= i < server.exchanges.len() {
            let stage = server.exchanges[i];
            Server {
                counters: recorded(
                    server.counters,
                    if closes(stage, event) {
                        Tally::Completed
                    } else {
                        Tally::Unchanged
                    },
                ),
                exchanges: server.exchanges.update(i, exchange_next(stage, event).0),
            }
        } else {
            server
        },
    }
}

/// The service after all that happened to it since it was new.
pub open spec fn server_after(happenings: Seq<Happening>) -> Server
    decreases happenings.len(),
{
    if happenings.len() == 0 {
        Server {
            counters: Counters { received: 0, completed: 0, rejected: 0 },
            exchanges: Seq::empty(),
        }
    } else {
        server_next(server_after(happenings.drop_last()), happenings.last())
    }
}

/// How many requests arrived.
pub open spec fn arrivals(happenings: Seq<Happening>) -> nat
    decreases happenings.len(),
{
    if happenings.len() == 0 {
        0
    } else {
        arrivals(happenings.drop_last()) + if happenings.last() is Arrived {
            1nat
        } else {
            0nat
        }
    }
}

/// Whether a request arrived and was turned away.
pub open spec fn is_refusal(happening: Happening) -> bool {
    happening matches Happening::Arrived(_, is_admitted) && !is_admitted
}

/// How many requests were turned away.
pub open spec fn refusals(happenings: Seq<Happening>) -> nat
    decreases happenings.len(),
{
    if happenings.len() == 0 {
        0
    } else {
        refusals(happenings.drop_last()) + if is_refusal(happenings.last()) {
            1nat
        } else {
            0nat
        }
    }
}

/// How many exchanges have been answered.
pub open spec fn answered(exchanges: Seq<StageView>) -> nat
    decreases exchanges.len(),
{
    if exchanges.len() == 0 {
        0
    } else {
        answered(exchanges.drop_last()) + if exchanges.last() is Closed {
            1nat
        } else {
            0nat
        }
    }
}

proof fn lemma_answered(exchanges: Seq<StageView>)
    ensures
        answered(exchanges) <= exchanges.len(),
        (forall|i: int| 0 <= i < exchanges.len() ==> (#[trigger] exchanges[i]) is Closed)
            ==> answered(exchanges) == exchanges.len(),
    decreases exchanges.len(),
{
    if exchanges.len() > 0 {
        let shorter = exchanges.drop_last();
        lemma_answered(shorter);
        assert(forall|i: int| 0 <= i < shorter.len() ==> shorter[i] == exchanges[i]);
        assert(exchanges[exchanges.len() - 1] == exchanges.last());
    }
}

proof fn lemma_answered_after_step(exchanges: Seq<StageView>, i: int, stage: StageView)
    requires
        0 <= i < exchanges.len(),
        exchanges[i] is Closed ==> stage is Closed,
    ensures
        answered(exchanges.update(i, stage)) == answered(exchanges) + if !(exchanges[i] is Closed)
            && stage is Closed {
            1nat
        } else {
            0nat
        },
    decreases exchanges.len(),
{
    let updated = exchanges.update(i, stage);
    if i == exchanges.len() - 1 {
        assert(updated.drop_last() =~= exchanges.drop_last());
    } else {
        assert(updated.drop_last() =~= exchanges.drop_last().update(i, stage));
        lemma_answered_after_step(exchanges.drop_last(), i, stage);
    }
}

/// The counters add up, whatever happens and in whatever order, as long as they do not overflow:
/// every request that arrived is counted as received, every one that was turned away as rejected,
/// and every one that was admitted and has been answered as completed. So completed and rejected
/// together never exceed received, and are as many once all requests have been answered.
pub proof fn counters_add_up(happenings: Seq<Happening>)
    requires
        arrivals(happenings) <= u64::MAX,
    ensures
        ({
            let server = server_after(happenings);
            &&& server.counters.received == arrivals(happenings)
            &&& server.counters.rejected == refusals(happenings)
            &&& server.counters.completed == answered(server.exchanges)
            &&& server.exchanges.len() + refusals(happenings) == arrivals(happenings)
            &&& server.counters.completed + server.counters.rejected <= server.counters.received
            &&& (forall|i: int|
                0 <= i < server.exchanges.len() ==> (#[trigger] server.exchanges[i]) is Closed)
                ==> server.counters.completed + server.counters.rejected
                == server.counters.received
        }),
    decreases happenings.len(),
{
    let server = server_after(happenings);
    if happenings.len() > 0 {
        let shorter = happenings.drop_last();
        let before = server_after(shorter);
        counters_add_up(shorter);
        lemma_answered(before.exchanges);
        match happenings.last() {
            Happening::Arrived(delivery, is_admitted) => {
                if is_admitted {
                    assert(server.exchanges.drop_last() =~= before.exchanges);
                }
            },
            Happening::Stepped(i, event) => {
                if 0 <= i < before.exchanges.len() {
                    lemma_answered_after_step(
                        before.exchanges,
                        i,
                        exchange_next(before.exchanges[i], event).0,
                    );
                }
            },
        }
    }
    lemma_answered(server.exchanges);
}

/// No counter ever decreases, as long as none overflows.
pub proof fn counters_never_decrease(happenings: Seq<Happening>, happening: Happening)
    requires
        arrivals(happenings.push(happening)) <= u64::MAX,
    ensures
        ({
            let before = server_after(happenings).counters;
            let after = server_after(happenings.push(happening)).counters;
            &&& before.received <= after.received
            &&& before.completed <= after.completed
            &&& before.rejected <= after.rejected
        }),
{
    assert(happenings.push(happening).drop_last() =~= happenings);
    counters_add_up(happenings);
    counters_add_up(happenings.push(happening));
    let before = server_after(happenings);
    if let Happening::Stepped(i, event) = happening {
        if 0 <= i < before.exchanges.len() {
            lemma_answered_after_step(
                before.exchanges,
                i,
                exchange_next(before.exchanges[i], event).0,
            );
        }
    }
    if let Happening::Arrived(delivery, is_admitted) = happening {
        let after = server_after(happenings.push(happening));
        if is_admitted {
            assert(after.exchanges.drop_last() =~= before.exchanges);
        }
    }
}

/// How an exchange can be answered: with 204 exactly when its job is abandoned, with 200 only
/// after a translation has ended, and with 400 or 422 where none was started. No other status
/// than 200, 400, 422, 500 and 503 is ever answered.
pub proof fn answers_are_of_few_kinds(delivery: Delivery, events: Seq<EventView>)
    requires
        run_of(delivery, events).stage is Closed,
    ensures
        ({
            let r = run_of(delivery, events);
            match r.actions.last() {
                ActionView::Answer(reply) => {
                    &&& reply.status == 200 || reply.status == 400 || reply.status == 422
                        || reply.status == 500 || reply.status == 503
                    &&& reply.status == 200 ==> has_started(r.actions)
                    &&& !has_started(r.actions) ==> reply.status == 400 || reply.status == 422
                },
                ActionView::Abandon(reply) => reply == no_content() && has_started(r.actions),
                _ => false,
            }
        }),
{
    lemma_run(delivery, events);
}

/// An admitted request is never told that the queue is full: with jobs that do not claim so
/// themselves, 503 is answered to requests that the queue turned away and to no others.
pub proof fn admitted_request_is_not_refused(delivery: Delivery, events: Seq<EventView>)
    requires
        forall|i: int| 0 <= i < events.len() ==> !claims_full_queue(#[trigger] events[i]),
        run_of(delivery, events).stage is Closed,
    ensures
        run_of(delivery, events).actions.last() matches ActionView::Answer(reply) ==> reply.status
            != 503,
    decreases events.len(),
{
    let shorter = events.drop_last();
    let before = run_of(delivery, shorter);
    assert(forall|i: int| 0 <= i < shorter.len() ==> shorter[i] == events[i]);
    if before.stage is Closed {
        admitted_request_is_not_refused(delivery, shorter);
    } else {
        assert(!claims_full_queue(events[events.len() - 1]));
    }
}

/// A body that is not complete is never held beyond the cap.
pub proof fn upload_stays_within_cap(delivery: Delivery, events: Seq<EventView>)
    ensures
        run_of(delivery, events).stage matches StageView::Uploading(_, upload) ==> upload.len()
            <= crate::MAX_UPLOAD_BYTES,
{
    lemma_run(delivery, events);
}

/// The bytes of frames in their order.
pub open spec fn joined(frames: Seq<Seq<u8>>) -> Seq<u8>
    decreases frames.len(),
{
    if frames.len() == 0 {
        Seq::empty()
    } else {
        joined(frames.drop_last()) + frames.last()
    }
}

/// The events of frames that arrive in their order.
pub open spec fn arriving(frames: Seq<Seq<u8>>) -> Seq<EventView> {
    frames.map_values(|frame: Seq<u8>| EventView::Body(BodyItemView::Frame(frame)))
}

/// Frames that arrive are put together as long as they stay within the cap together, and the
/// upload is refused as too large as soon as they do not, whatever their sizes and their number.
pub proof fn frames_are_collected_within_cap(delivery: Delivery, frames: Seq<Seq<u8>>)
    ensures
        ({
            let r = run_of(delivery, arriving(frames));
            if joined(frames).len() <= crate::MAX_UPLOAD_BYTES {
                r.stage == StageView::Uploading(delivery, joined(frames))
            } else {
                &&& r.stage is Closed
                &&& r.actions.last() == ActionView::Answer(
                    error_reply(ApiErrorView::BadRequest("upload too large"@)),
                )
            }
        }),
    decreases frames.len(),
{
    if frames.len() > 0 {
        frames_are_collected_within_cap(delivery, frames.drop_last());
        assert(arriving(frames).drop_last() =~= arriving(frames.drop_last()));
        assert(arriving(frames).last() == EventView::Body(BodyItemView::Frame(frames.last())));
        lemma_run(delivery, arriving(frames.drop_last()));
    } else {
        assert(arriving(frames) =~= Seq::empty());
    }
}

/// A complete upload within the cap is handed on whole, as a form or as a pair of paths.
pub proof fn complete_upload_is_handed_on(delivery: Delivery, frames: Seq<Seq<u8>>)
    requires
        joined(frames).len() <= crate::MAX_UPLOAD_BYTES,
    ensures
        ({
            let r = run_of(
                delivery,
                arriving(frames).push(EventView::Body(BodyItemView::Ended)),
            );
            match delivery {
                Delivery::InReply => r.stage is Scanning && r.actions.last()
                    == ActionView::OpenForm(joined(frames)),
                Delivery::ToFile => r.stage is ParsingPaths && r.actions.last()
                    == ActionView::ParsePaths(joined(frames)),
            }
        }),
{
    frames_are_collected_within_cap(delivery, frames);
    let events = arriving(frames).push(EventView::Body(BodyItemView::Ended));
    assert(events.drop_last() =~= arriving(frames));
}

/// The events of fields that are found in their order.
pub open spec fn found(names: Seq<Option<Seq<char>>>) -> Seq<EventView> {
    names.map_values(|name: Option<Seq<char>>| EventView::Field(name))
}

/// Fields with other names are passed over.
proof fn lemma_other_fields_are_passed_over(names: Seq<Option<Seq<char>>>)
    requires
        forall|i: int| 0 <= i < names.len() ==> #[trigger] names[i] != Some("image"@),
    ensures
        run(StageView::Scanning, found(names)).stage is Scanning,
    decreases names.len(),
{
    if names.len() > 0 {
        let shorter = names.drop_last();
        assert(forall|i: int| 0 <= i < shorter.len() ==> shorter[i] == names[i]);
        lemma_other_fields_are_passed_over(shorter);
        assert(found(names).drop_last() =~= found(shorter));
        assert(names[names.len() - 1] != Some("image"@));
    } else {
        assert(found(names) =~= Seq::empty());
    }
}

/// Of a form the first field with the name `image` is read, whatever other fields come before it,
/// and its bytes are what is translated.
pub proof fn first_image_field_is_translated(names: Seq<Option<Seq<char>>>, bytes: Seq<u8>)
    requires
        forall|i: int| 0 <= i < names.len() ==> #[trigger] names[i] != Some("image"@),
    ensures
        ({
            let r = run(
                StageView::Scanning,
                found(names).push(EventView::Field(Some("image"@))).push(
                    EventView::FieldBytes(bytes),
                ),
            );
            r.stage == StageView::Translating(true) && r.actions.last() == ActionView::Translate(
                bytes,
            )
        }),
{
    lemma_other_fields_are_passed_over(names);
    let to_image = found(names).push(EventView::Field(Some("image"@)));
    assert(to_image.drop_last() =~= found(names));
    assert(run(StageView::Scanning, to_image).stage is ReadingField);
    let to_bytes = to_image.push(EventView::FieldBytes(bytes));
    assert(to_bytes.drop_last() =~= to_image);
}

/// A form without an `image` field is a bad request.
pub proof fn form_without_image_is_refused(names: Seq<Option<Seq<char>>>)
    requires
        forall|i: int| 0 <= i < names.len() ==> #[trigger] names[i] != Some("image"@),
    ensures
        ({
            let r = run(StageView::Scanning, found(names).push(EventView::FieldsEnded));
            r.stage is Closed && r.actions.last() == ActionView::Answer(
                error_reply(ApiErrorView::BadRequest("missing multipart field `image`"@)),
            )
        }),
{
    lemma_other_fields_are_passed_over(names);
    let events = found(names).push(EventView::FieldsEnded);
    assert(events.drop_last() =~= found(names));
}

/// While a job runs, a break of the connection abandons it, unless the stream has given anything
/// else before: then the detector is parked, and nothing that the stream does counts.
pub proof fn disconnect_abandons_job_unless_parked(stage: StageView, item: BodyItemView)
    requires
        is_translating(stage),
    ensures
        ({
            let watching = match stage {
                StageView::Translating(watching) => watching,
                StageView::TranslatingTo(_, watching) => watching,
                _ => false,
            };
            let (next, action) = exchange_next(stage, EventView::Body(item));
            if !watching {
                next == stage && action is Ignore
            } else if item is Failed {
                next is Closed && action == ActionView::Abandon(no_content())
            } else {
                &&& is_translating(next)
                &&& action is AwaitJob
                &&& match next {
                    StageView::Translating(watching) => !watching,
                    StageView::TranslatingTo(_, watching) => !watching,
                    _ => false,
                }
            }
        }),
{
}

/// The event of a job that ends in an error, for an exchange in `stage`.
pub open spec fn job_failed(stage: StageView, error: ApiErrorView) -> EventView {
    job_event(
        if stage is Translating {
            Delivery::InReply
        } else {
            Delivery::ToFile
        },
        Err(error),
    )
}

/// Whether `step` ends an exchange with the answer to `error`, which has the given status.
pub open spec fn answers_error(
    step: (StageView, ActionView),
    error: ApiErrorView,
    status: u16,
) -> bool {
    &&& step.0 is Closed
    &&& step.1 == ActionView::Answer(error_reply(error))
    &&& error_reply(error).status == status
}

/// A file that does not decode is a bad request: no page is started for it, and the error of its
/// job is answered with 400.
pub proof fn undecodable_image_is_a_bad_request(
    stage: StageView,
    source: Seq<u8>,
    text: Seq<char>,
    media_type: Seq<char>,
)
    requires
        is_translating(stage),
    ensures
        page_start(page_draft_of(source, Err(text), media_type)) matches Err(error) && answers_error(
            exchange_next(stage, job_failed(stage, error)),
            error,
            400,
        ),
{
}

/// A failure of any action for a page ends it, and the error of its job is answered with 500.
pub proof fn failed_page_is_an_internal_error(
    stage: StageView,
    page: PageStageView,
    text: Seq<char>,
)
    requires
        is_translating(stage),
        !(page is Closed),
    ensures
        page_next(page, PageEventView::Failed(text)).1 matches PageActionView::Finish(Err(error))
            && answers_error(exchange_next(stage, job_failed(stage, error)), error, 500),
{
}

/// An input file that cannot be read and an output file that cannot be written are answered with
/// 422, and the message names the path and the reason.
pub proof fn unusable_file_is_unprocessable(paths: TranslatePathView, text: Seq<char>)
    ensures
        answers_error(
            exchange_next(StageView::ReadingInput(paths), EventView::Input(Err(text))),
            unreadable(paths.input_path, text),
            422,
        ),
        answers_error(
            exchange_next(StageView::Writing(paths.output_path), EventView::Written(Err(text))),
            unwritable(paths.output_path, text),
            422,
        ),
{
}

/// A body that breaks off, a form or a field that is rejected, and a body that is no JSON object
/// with two paths are answered with 400.
pub proof fn unusable_body_is_a_bad_request(
    delivery: Delivery,
    upload: Seq<u8>,
    stage: StageView,
    text: Seq<char>,
)
    requires
        stage is Scanning || stage is ReadingField || stage is ParsingPaths,
    ensures
        answers_error(
            exchange_next(
                StageView::Uploading(delivery, upload),
                EventView::Body(BodyItemView::Failed(text)),
            ),
            ApiErrorView::BadRequest("upload failed: "@ + text),
            400,
        ),
        answers_error(
            exchange_next(stage, EventView::Rejected(text)),
            ApiErrorView::BadRequest(text),
            400,
        ),
{
}

/// The events of an undisturbed `/translate` request, from the end of its upload: `image` is the
/// field of that name, and `page` what its job rendered.
pub open spec fn undisturbed_reply(image: Seq<u8>, page: PageImageView) -> Seq<EventView> {
    seq![
        EventView::Body(BodyItemView::Ended),
        EventView::Field(Some("image"@)),
        EventView::FieldBytes(image),
        EventView::Body(BodyItemView::Ended),
        job_event(Delivery::InReply, Ok(page)),
    ]
}

/// The answer with a page that was encoded, or not.
pub open spec fn page_reply(encoded: Result<Seq<u8>, Seq<char>>) -> ReplyView {
    match encoded {
        Ok(png) => success(ReplyBodyView::Png(png)),
        Err(text) => error_reply(ApiErrorView::Internal(text)),
    }
}

/// A `/translate` request that nothing disturbs has its image translated and is answered with
/// 200 and the PNG of the rendered page, and is counted as completed; a page that cannot be encoded
/// is an internal error.
pub proof fn undisturbed_request_gets_png(upload: Seq<u8>, image: Seq<u8>, page: PageImageView)
    ensures
        run(
            StageView::Uploading(Delivery::InReply, upload),
            undisturbed_reply(image, page),
        ) == (Run {
            stage: StageView::Closed,
            actions: seq![
                ActionView::OpenForm(upload),
                ActionView::ReadField,
                ActionView::Translate(image),
                ActionView::AwaitJob,
                ActionView::Answer(
                    page_reply(png_encoding(page.width, page.height, page.pixels)),
                ),
            ],
            completed: 1,
        }),
{
    let start = StageView::Uploading(Delivery::InReply, upload);
    let events = undisturbed_reply(image, page);
    let answer = page_reply(png_encoding(page.width, page.height, page.pixels));
    assert(events.drop_last() =~= events.take(4));
    assert(events.take(4).drop_last() =~= events.take(3));
    assert(events.take(3).drop_last() =~= events.take(2));
    assert(events.take(2).drop_last() =~= events.take(1));
    assert(events.take(1).drop_last() =~= Seq::empty());
    assert(run(start, Seq::empty()).actions =~= Seq::empty());
    assert(run(start, events.take(1)).stage is Scanning);
    assert(run(start, events.take(2)).stage is ReadingField);
    assert(run(start, events.take(3)).stage == StageView::Translating(true));
    assert(run(start, events.take(4)).stage == StageView::Translating(false));
    assert(run(start, events).actions =~= seq![
        ActionView::OpenForm(upload),
        ActionView::ReadField,
        ActionView::Translate(image),
        ActionView::AwaitJob,
        ActionView::Answer(answer),
    ]);
}

/// The events of an undisturbed `/translate-path` request, from the end of its upload.
pub open spec fn undisturbed_write(
    paths: TranslatePathView,
    source: Seq<u8>,
    image: PageImageView,
) -> Seq<EventView> {
    seq![
        EventView::Body(BodyItemView::Ended),
        EventView::Paths(paths),
        EventView::Input(Ok(source)),
        EventView::Body(BodyItemView::Ended),
        job_event(Delivery::ToFile, Ok(image)),
        EventView::Written(Ok(())),
    ]
}

/// What an undisturbed `/translate-path` request asks for up to the end of its job.
pub open spec fn translation_to_file(
    upload: Seq<u8>,
    paths: TranslatePathView,
    source: Seq<u8>,
) -> Seq<ActionView> {
    seq![
        ActionView::ParsePaths(upload),
        ActionView::ReadInput(paths.input_path),
        ActionView::Translate(source),
        ActionView::AwaitJob,
    ]
}

/// A `/translate-path` request that nothing disturbs has the file at its input path translated
/// and is counted as completed. The PNG is written to its output path and the answer is 200 with
/// `{"status": "ok"}`; a page that cannot be encoded is answered like an unwritable file.
pub proof fn undisturbed_request_writes_png(
    upload: Seq<u8>,
    paths: TranslatePathView,
    source: Seq<u8>,
    image: PageImageView,
)
    ensures
        run(
            StageView::Uploading(Delivery::ToFile, upload),
            undisturbed_write(paths, source, image),
        ) == (Run {
            stage: StageView::Closed,
            actions: translation_to_file(upload, paths, source) + match png_encoding(
                image.width,
                image.height,
                image.pixels,
            ) {
                Ok(png) => seq![
                    ActionView::WriteOutput(paths.output_path, png),
                    ActionView::Answer(success(ReplyBodyView::Json(status_json("ok"@)))),
                ],
                Err(text) => seq![
                    ActionView::Answer(error_reply(unwritable(paths.output_path, text))),
                ],
            },
            completed: 1,
        }),
{
    let start = StageView::Uploading(Delivery::ToFile, upload);
    let events = undisturbed_write(paths, source, image);
    assert(events.drop_last() =~= events.take(5));
    assert(events.take(5).drop_last() =~= events.take(4));
    assert(events.take(4).drop_last() =~= events.take(3));
    assert(events.take(3).drop_last() =~= events.take(2));
    assert(events.take(2).drop_last() =~= events.take(1));
    assert(events.take(1).drop_last() =~= Seq::empty());
    assert(run(start, Seq::empty()).actions =~= Seq::empty());
    assert(run(start, events.take(1)).stage is ParsingPaths);
    assert(run(start, events.take(2)).stage == StageView::ReadingInput(paths));
    assert(run(start, events.take(3)).stage == StageView::TranslatingTo(paths.output_path, true));
    assert(run(start, events.take(4)).stage == StageView::TranslatingTo(paths.output_path, false));
    assert(run(start, events.take(4)).actions =~= translation_to_file(upload, paths, source));
    match png_encoding(image.width, image.height, image.pixels) {
        Ok(png) => {
            assert(run(start, events.take(5)).stage == StageView::Writing(paths.output_path));
            assert(run(start, events).actions =~= translation_to_file(upload, paths, source)
                + seq![
                ActionView::WriteOutput(paths.output_path, png),
                ActionView::Answer(success(ReplyBodyView::Json(status_json("ok"@)))),
            ]);
        },
        Err(text) => {
            assert(run(start, events.take(5)).stage is Closed);
            assert(run(start, events).actions =~= translation_to_file(upload, paths, source)
                + seq![ActionView::Answer(error_reply(unwritable(paths.output_path, text)))]);
        },
    }
}

/// The header of an answer goes with its route and its body: every 200 to a `/translate` request is
/// `image/png`, whatever its page is, every 200 to a `/translate-path` request and every other
/// answer with a JSON body is `application/json`, and what is abandoned has none.
pub proof fn answers_have_their_media_type(delivery: Delivery, events: Seq<EventView>)
    requires
        run_of(delivery, events).stage is Closed,
    ensures
        match run_of(delivery, events).actions.last() {
            ActionView::Answer(reply) => {
                &&& reply.status == 200 && delivery == Delivery::InReply ==> content_type_of(
                    reply.body,
                ) == Some("image/png"@)
                &&& reply.status == 200 && delivery == Delivery::ToFile ==> content_type_of(
                    reply.body,
                ) == Some("application/json"@)
                &&& reply.status != 200 ==> content_type_of(reply.body) == Some(
                    "application/json"@,
                )
            },
            ActionView::Abandon(reply) => content_type_of(reply.body) is None,
            _ => false,
        },
    decreases events.len(),
{
    lemma_run(delivery, events);
    let before = run_of(delivery, events.drop_last());
    if before.stage is Closed {
        answers_have_their_media_type(delivery, events.drop_last());
    } else {
        lemma_run(delivery, events.drop_last());
    }
}

} // verus!
