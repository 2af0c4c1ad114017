use koharu_server::error::ApiError;
use koharu_server::exchange::{deliver, translated, Action, Delivery, Event, Exchange, Stage};
use koharu_server::handlers::{
    drain_body, meet, race_disconnect, translate, translate_path, BodyItem, Drained, JobOutcome,
    RaceEvent, RaceStep, TranslatePathRequest,
};
use koharu_server::page::PageImage;
use koharu_server::reply::{Reply, ReplyBody};
use koharu_server::state::{acquire, admission, ServerState, Tally};
use koharu_server::MAX_UPLOAD_BYTES;

fn json_of(reply: &Reply) -> &str {
    match &reply.body {
        ReplyBody::Json(text) => text,
        _ => panic!("no JSON body"),
    }
}

fn answered(action: Action) -> Reply {
    match action {
        Action::Answer(reply) => reply,
        _ => panic!("not answered"),
    }
}

/// An exchange that has met `events`, with the last action and the number of completions.
fn driven(delivery: Delivery, events: Vec<Event>) -> (Exchange<()>, Action, u64) {
    let mut state = ServerState::new(1);
    let (mut exchange, mut action) = Exchange::open((), delivery);
    for event in events {
        let tally;
        (exchange, action, tally) = exchange.step(event);
        state.record(tally);
    }
    (exchange, action, state.completed)
}

fn frame(bytes: &[u8]) -> Event {
    Event::Body(BodyItem::Frame(bytes.to_vec()))
}

fn ended() -> Event {
    Event::Body(BodyItem::Ended)
}

fn broken() -> Event {
    Event::Body(BodyItem::Failed("connection reset".to_string()))
}

fn field(name: &str) -> Event {
    Event::Field(Some(name.to_string()))
}

fn paths() -> TranslatePathRequest {
    TranslatePathRequest { input_path: "in.png".to_string(), output_path: "out.jpg".to_string() }
}

fn translating() -> Vec<Event> {
    vec![ended(), field("image"), Event::FieldBytes(vec![9])]
}

fn translating_to() -> Vec<Event> {
    vec![ended(), Event::Paths(paths()), Event::Input(Ok(vec![8]))]
}

fn then(mut events: Vec<Event>, last: Event) -> Vec<Event> {
    events.push(last);
    events
}

fn pixel() -> PageImage {
    PageImage::new(1, 1, vec![1, 2, 3, 255]).unwrap()
}

#[test]
fn queue_gate_rejects_beyond_limit_and_releases_on_drop() {
    let queue = tokio::sync::Semaphore::new(1);
    let first = acquire(&queue).expect("first permit is available");
    assert!(matches!(acquire(&queue), Err(ApiError::QueueFull)));
    drop(first);
    assert!(acquire(&queue).is_ok());
}

#[test]
fn queue_holds_as_many_as_it_was_made_for() {
    let state = ServerState::new(3);
    let held: Vec<_> = (0..3).map(|_| acquire(&state.queue).unwrap()).collect();
    assert!(held.iter().all(|permit| permit.num_permits() == 1));
    assert!(matches!(acquire(&state.queue), Err(ApiError::QueueFull)));
    drop(held);
    assert_eq!(state.queue.available_permits(), 3);
    assert!(acquire(&ServerState::new(0).queue).is_err());
    assert_eq!((state.received, state.completed, state.rejected), (0, 0, 0));
}

#[test]
fn any_refusal_of_the_queue_means_that_it_is_full() {
    assert!(matches!(admission::<u8, u8>(Ok(5)), Ok(5)));
    assert!(matches!(admission::<u8, u8>(Err(5)), Err(ApiError::QueueFull)));
}

#[test]
fn arrivals_are_counted() {
    let mut state = ServerState::new(1);
    let queue = state.queue.clone();
    let first = translate(&queue, &mut state);
    assert!(matches!(first, Ok((_, Action::NextFrame))));
    let Err(reply) = translate_path(&queue, &mut state) else { panic!("admitted") };
    assert_eq!(reply.status, 503);
    assert_eq!(json_of(&reply), r#"{"error":"queue full"}"#);
    assert_eq!((state.received, state.completed, state.rejected), (2, 0, 1));
    drop(first);
    assert!(translate_path(&queue, &mut state).is_ok());
    assert_eq!((state.received, state.completed, state.rejected), (3, 0, 1));
}

#[test]
fn counters_add_up_over_several_requests() {
    let mut state = ServerState::new(2);
    let queue = state.queue.clone();
    let (first, _) = translate(&queue, &mut state).ok().unwrap();
    let (second, _) = translate_path(&queue, &mut state).ok().unwrap();
    assert!(translate(&queue, &mut state).is_err());
    let (second, action, tally) = second.step(broken());
    state.record(tally);
    assert_eq!(answered(action).status, 400);
    assert_eq!((state.received, state.completed, state.rejected), (3, 1, 1));
    drop(second);
    let (_, _, tally) = first.step(broken());
    state.record(tally);
    assert_eq!((state.received, state.completed, state.rejected), (3, 2, 1));
}

#[test]
fn admission_decides_how_a_request_is_met() {
    let mut state = ServerState::new(1);
    assert!(matches!(meet(&mut state, Ok(7), Delivery::ToFile), Ok((_, Action::NextFrame))));
    assert!(meet::<u8>(&mut state, Err(ApiError::QueueFull), Delivery::InReply).is_err());
    assert_eq!((state.received, state.completed, state.rejected), (2, 0, 1));
}

#[test]
fn counters_wrap_around() {
    let mut state = ServerState::new(1);
    state.received = u64::MAX;
    state.completed = u64::MAX;
    state.rejected = u64::MAX;
    state.finish();
    assert!(meet::<()>(&mut state, Err(ApiError::QueueFull), Delivery::InReply).is_err());
    assert_eq!((state.received, state.completed, state.rejected), (0, 0, 0));
}

#[test]
fn exchange_holds_its_place_in_the_queue() {
    let mut state = ServerState::new(1);
    let queue = state.queue.clone();
    let (exchange, _) = translate(&queue, &mut state).ok().unwrap();
    assert!(acquire(&queue).is_err());
    let (exchange, _, _) = exchange.step(broken());
    assert!(acquire(&queue).is_err());
    drop(exchange);
    assert!(acquire(&queue).is_ok());
}

#[test]
fn uploads_are_put_together() {
    let (_, action, _) =
        driven(Delivery::InReply, vec![frame(b"ab"), frame(b""), frame(b"c"), ended()]);
    assert!(matches!(action, Action::OpenForm(upload) if upload == b"abc"));
    let (_, action, _) = driven(Delivery::ToFile, vec![frame(b"{}"), ended()]);
    assert!(matches!(action, Action::ParsePaths(upload) if upload == b"{}"));
}

#[test]
fn upload_cap_is_exact() {
    let full = vec![0; MAX_UPLOAD_BYTES];
    let Drained::More(full) = drain_body(Vec::new(), BodyItem::Frame(full)) else {
        panic!("refused at the cap")
    };
    assert_eq!(full.len(), 64 * 1024 * 1024);
    let Drained::More(full) = drain_body(full, BodyItem::Frame(vec![])) else {
        panic!("refused at the cap")
    };
    let Drained::Refused(ApiError::BadRequest(text)) = drain_body(full, BodyItem::Frame(vec![1]))
    else {
        panic!("taken beyond the cap")
    };
    assert_eq!(text, "upload too large");
}

#[test]
fn oversized_upload_is_answered() {
    let (_, action, completed) =
        driven(Delivery::InReply, vec![frame(&vec![0; MAX_UPLOAD_BYTES]), frame(b"x")]);
    let reply = answered(action);
    assert_eq!(reply.status, 400);
    assert_eq!(json_of(&reply), r#"{"error":"bad request: upload too large"}"#);
    assert_eq!(completed, 1);
}

#[test]
fn broken_upload_is_answered() {
    let (_, action, _) = driven(Delivery::ToFile, vec![frame(b"x"), broken()]);
    let reply = answered(action);
    assert_eq!(reply.status, 400);
    assert_eq!(
        json_of(&reply),
        r#"{"error":"bad request: upload failed: connection reset"}"#
    );
}

#[test]
fn first_image_field_is_read() {
    let (_, action, _) = driven(
        Delivery::InReply,
        vec![ended(), Event::Field(None), field("Image"), field("image")],
    );
    assert!(matches!(action, Action::ReadField));
    let (_, action, _) = driven(Delivery::InReply, vec![ended(), field("images")]);
    assert!(matches!(action, Action::NextField));
    let (_, action, _) = driven(Delivery::InReply, translating());
    assert!(matches!(action, Action::Translate(source) if source == [9]));
}

#[test]
fn form_without_image_is_answered() {
    let (_, action, completed) =
        driven(Delivery::InReply, vec![ended(), field("other"), Event::FieldsEnded]);
    let reply = answered(action);
    assert_eq!((reply.status, completed), (400, 1));
    assert_eq!(
        json_of(&reply),
        r#"{"error":"bad request: missing multipart field `image`"}"#
    );
}

#[test]
fn rejected_bodies_are_answered() {
    let rejected = || Event::Rejected("Invalid `boundary`".to_string());
    for (delivery, before) in [
        (Delivery::InReply, vec![ended()]),
        (Delivery::InReply, vec![ended(), field("image")]),
        (Delivery::ToFile, vec![ended()]),
    ] {
        let (_, action, completed) = driven(delivery, then(before, rejected()));
        let reply = answered(action);
        assert_eq!(reply.status, 400);
        assert_eq!(json_of(&reply), r#"{"error":"bad request: Invalid `boundary`"}"#);
        assert_eq!(completed, 1);
    }
}

#[test]
fn translated_page_is_answered_as_png() {
    let (_, action, completed) =
        driven(Delivery::InReply, then(translating(), Event::Encoded(Ok(vec![1, 2, 3]))));
    let reply = answered(action);
    assert_eq!(reply.status, 200);
    assert_eq!(reply.content_type(), Some("image/png"));
    assert!(matches!(reply.body, ReplyBody::Png(png) if png == [1, 2, 3]));
    assert_eq!(completed, 1);
}

#[test]
fn job_ends_in_what_its_route_delivers() {
    let Event::Encoded(Ok(png)) = translated(Delivery::InReply, Ok(pixel())) else {
        panic!("not encoded")
    };
    let decoded = image::load_from_memory(&png).unwrap().to_rgba8();
    assert_eq!(decoded.into_raw(), [1, 2, 3, 255]);
    let Event::Rendered(Ok(image)) = translated(Delivery::ToFile, Ok(pixel())) else {
        panic!("not rendered")
    };
    assert_eq!(image.into_parts(), (1, 1, vec![1, 2, 3, 255]));
    let failed = translated(Delivery::InReply, Err(ApiError::QueueFull));
    assert!(matches!(failed, Event::Encoded(Err(ApiError::QueueFull))));
    let empty = PageImage::new(0, 0, vec![]).unwrap();
    let failed = translated(Delivery::InReply, Ok(empty));
    assert!(matches!(failed, Event::Encoded(Err(ApiError::Internal(_)))));
}

#[test]
fn failed_jobs_are_answered() {
    let undecodable = || ApiError::BadRequest("undecodable image: x".to_string());
    let (_, action, completed) =
        driven(Delivery::InReply, then(translating(), Event::Encoded(Err(undecodable()))));
    assert_eq!((answered(action).status, completed), (400, 1));
    let (_, action, completed) =
        driven(Delivery::ToFile, then(translating_to(), Event::Rendered(Err(undecodable()))));
    assert_eq!((answered(action).status, completed), (400, 1));
    for (delivery, before) in
        [(Delivery::InReply, translating()), (Delivery::ToFile, translating_to())]
    {
        let (_, action, completed) =
            driven(delivery, then(before, Event::JobLost("panicked".to_string())));
        let reply = answered(action);
        assert_eq!((reply.status, completed), (500, 1));
        assert_eq!(json_of(&reply), r#"{"error":"internal error"}"#);
        assert_eq!(reply.log.as_deref(), Some("panicked"));
    }
}

#[test]
fn disconnect_abandons_the_job() {
    for (delivery, before) in
        [(Delivery::InReply, translating()), (Delivery::ToFile, translating_to())]
    {
        let (_, action, completed) = driven(delivery, then(before, broken()));
        let Action::Abandon(reply) = action else { panic!("not abandoned") };
        assert_eq!(reply.status, 204);
        assert!(matches!(reply.body, ReplyBody::Empty));
        assert_eq!(completed, 1);
    }
}

#[test]
fn clean_end_parks_the_detector() {
    let parked = || then(translating(), ended());
    let (_, action, completed) = driven(Delivery::InReply, parked());
    assert!(matches!(action, Action::AwaitJob));
    assert_eq!(completed, 0);
    let (_, action, completed) = driven(Delivery::InReply, then(parked(), broken()));
    assert!(matches!(action, Action::Ignore));
    assert_eq!(completed, 0);
    let (_, action, _) =
        driven(Delivery::InReply, then(then(parked(), broken()), Event::Encoded(Ok(vec![4]))));
    assert_eq!(answered(action).status, 200);
}

#[test]
fn stray_frame_parks_the_detector() {
    let (_, action, _) = driven(Delivery::ToFile, then(translating_to(), frame(b"late")));
    assert!(matches!(action, Action::AwaitJob));
}

#[test]
fn paths_are_used_verbatim() {
    let (_, action, _) = driven(Delivery::ToFile, vec![ended(), Event::Paths(paths())]);
    assert!(matches!(action, Action::ReadInput(path) if path == "in.png"));
    let (_, action, _) = driven(Delivery::ToFile, translating_to());
    assert!(matches!(action, Action::Translate(source) if source == [8]));
}

#[test]
fn unreadable_input_is_answered() {
    let (_, action, completed) = driven(
        Delivery::ToFile,
        vec![ended(), Event::Paths(paths()), Event::Input(Err("not found".to_string()))],
    );
    let reply = answered(action);
    assert_eq!((reply.status, completed), (422, 1));
    assert_eq!(json_of(&reply), r#"{"error":"unprocessable: cannot read in.png: not found"}"#);
}

#[test]
fn rendered_page_is_written_as_png() {
    let rendered = then(translating_to(), Event::Rendered(Ok(pixel())));
    let (_, action, completed) = driven(Delivery::ToFile, rendered);
    let Action::WriteOutput(path, png) = action else { panic!("nothing to write") };
    assert_eq!(path, "out.jpg");
    let decoded = image::load_from_memory(&png).unwrap().to_rgba8();
    assert_eq!(decoded.into_raw(), [1, 2, 3, 255]);
    assert_eq!(&png[1..4], b"PNG");
    assert_eq!(completed, 0);
}

#[test]
fn written_output_is_answered() {
    let rendered = || then(translating_to(), Event::Rendered(Ok(pixel())));
    let (_, action, completed) =
        driven(Delivery::ToFile, then(rendered(), Event::Written(Ok(()))));
    let reply = answered(action);
    assert_eq!((reply.status, completed), (200, 1));
    assert_eq!(json_of(&reply), r#"{"status":"ok"}"#);
    let (_, action, completed) = driven(
        Delivery::ToFile,
        then(rendered(), Event::Written(Err("read-only".to_string()))),
    );
    let reply = answered(action);
    assert_eq!((reply.status, completed), (422, 1));
    assert_eq!(json_of(&reply), r#"{"error":"unprocessable: cannot write out.jpg: read-only"}"#);
}

#[test]
fn page_without_pixels_is_unwritable() {
    let empty = PageImage::new(0, 0, vec![]).unwrap();
    let (_, action, _) =
        driven(Delivery::ToFile, then(translating_to(), Event::Rendered(Ok(empty))));
    assert_eq!(answered(action).status, 422);
    let (stage, action) = deliver("o".to_string(), Err("empty".to_string()));
    assert!(matches!(stage, Stage::Closed));
    assert_eq!(
        json_of(&answered(action)),
        r#"{"error":"unprocessable: cannot write o: empty"}"#
    );
}

#[test]
fn nothing_happens_after_the_answer() {
    let (exchange, _) = Exchange::open((), Delivery::InReply);
    let (mut exchange, action, _) = exchange.step(broken());
    assert_eq!(answered(action).status, 400);
    for event in [ended(), broken(), Event::Encoded(Ok(vec![])), Event::JobLost(String::new())] {
        let (action, tally);
        (exchange, action, tally) = exchange.step(event);
        assert!(matches!(action, Action::Ignore));
        assert!(tally == Tally::Unchanged);
    }
}

#[test]
fn events_out_of_turn_are_ignored() {
    for event in [
        Event::FieldsEnded,
        Event::FieldBytes(vec![1]),
        Event::Paths(paths()),
        Event::Encoded(Ok(vec![1])),
        Event::Written(Ok(())),
    ] {
        let (_, action, _) = driven(Delivery::InReply, vec![event]);
        assert!(matches!(action, Action::Ignore));
    }
    let (_, action, _) = driven(Delivery::ToFile, vec![ended(), field("image")]);
    assert!(matches!(action, Action::Ignore));
}

#[test]
fn race_is_decided_by_the_job_or_a_break() {
    let won = race_disconnect(RaceEvent::Joined(Ok(3)));
    assert!(matches!(won, RaceStep::Resolved(JobOutcome::Finished(Ok(3)))));
    let lost: RaceStep<u8> = race_disconnect(RaceEvent::JobLost("gone".to_string()));
    assert!(matches!(
        lost,
        RaceStep::Resolved(JobOutcome::Finished(Err(ApiError::Internal(text)))) if text == "gone"
    ));
    let broke: RaceStep<u8> =
        race_disconnect(RaceEvent::Stream(BodyItem::Failed("reset".to_string())));
    assert!(matches!(broke, RaceStep::Resolved(JobOutcome::Disconnected)));
    let parked: RaceStep<u8> = race_disconnect(RaceEvent::Stream(BodyItem::Ended));
    assert!(matches!(parked, RaceStep::Parked));
    let parked: RaceStep<u8> = race_disconnect(RaceEvent::Stream(BodyItem::Frame(vec![1])));
    assert!(matches!(parked, RaceStep::Parked));
}
