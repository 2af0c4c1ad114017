//! The translation of one page: what is asked of the pipeline, in which order, and what becomes
//! of each outcome.
use vstd::prelude::*;
use vstd::string::*;

use crate::error::ApiError;
use crate::page::{guess_format, load_dimensions, write_png, GuessedFormat, PageImage};

verus! {

use crate::error::ApiErrorView;
use crate::page::{
    bytes_view, decoded_dimensions, dimensions_view, is_jpeg, is_png_of, is_webp, png_encoding,
    PageImageView,
};

/// The media type that labels a file with these first bytes; what is neither JPEG nor WebP
/// counts as PNG.
pub open spec fn media_type_of(bytes: Seq<u8>) -> Seq<char> {
    if is_jpeg(bytes) {
        "image/jpeg"@
    } else if is_webp(bytes) {
        "image/webp"@
    } else {
        "image/png"@
    }
}

/// The media type that goes with a guessed format.
pub open spec fn media_type_of_format(format: GuessedFormat) -> Seq<char> {
    match format {
        GuessedFormat::Jpeg => "image/jpeg"@,
        GuessedFormat::WebP => "image/webp"@,
        GuessedFormat::Other => "image/png"@,
    }
}

/// The media type that goes with a guessed format; unknown content defaults to PNG.
pub fn media_type_label(format: GuessedFormat) -> (r: &'static str)
    ensures
        r@ == media_type_of_format(format),
{
    match format {
        GuessedFormat::Jpeg => "image/jpeg",
        GuessedFormat::WebP => "image/webp",
        GuessedFormat::Other => "image/png",
    }
}

/// Labels the asset metadata. The pipeline decodes asset bytes by their first bytes itself.
pub fn media_type(bytes: &[u8]) -> (r: &'static str)
    ensures
        r@ == media_type_of(bytes@),
{
    media_type_label(guess_format(bytes))
}

/// What an encoder's outcome means: a file, or an internal error.
pub open spec fn png_outcome_of(encoded: Result<Seq<u8>, Seq<char>>) -> Result<
    Seq<u8>,
    ApiErrorView,
> {
    match encoded {
        Ok(png) => Ok(png),
        Err(text) => Err(ApiErrorView::Internal(text)),
    }
}

/// The contents of a file or an error.
pub open spec fn file_view(r: Result<Vec<u8>, ApiError>) -> Result<Seq<u8>, ApiErrorView> {
    match r {
        Ok(bytes) => Ok(bytes@),
        Err(error) => Err(error@),
    }
}

/// Takes an encoder's outcome: a failure is an internal error.
pub fn png_outcome(encoded: Result<Vec<u8>, String>) -> (r: Result<Vec<u8>, ApiError>)
    ensures
        file_view(r) == png_outcome_of(bytes_view(encoded)),
{
    match encoded {
        Ok(png) => Ok(png),
        Err(text) => Err(ApiError::internal(text)),
    }
}

/// Encodes a rendered page as PNG. Only a page without pixels cannot be encoded.
pub fn encode_png(image: PageImage) -> (r: Result<Vec<u8>, ApiError>)
    ensures
        file_view(r) == png_outcome_of(
            png_encoding(image@.width, image@.height, image@.pixels),
        ),
        r is Ok <==> (image@.width != 0 && image@.height != 0),
        r matches Err(error) ==> error is Internal,
        r matches Ok(png) ==> is_png_of(png@, image@),
        r matches Ok(png) ==> media_type_of(png@) == "image/png"@,
{
    let (width, height, pixels) = image.into_parts();
    let encoded = write_png(width, height, pixels);
    proof {
        if encoded is Ok {
            let png = encoded->Ok_0@;
            assert(png.take(8)[0] == 0x89u8);
            if is_jpeg(png) {
                assert(png.take(3)[0] == 0xffu8);
            }
            if is_webp(png) {
                assert(png.subrange(0, 4)[0] == 0x52u8);
            }
        }
    }
    png_outcome(encoded)
}

/// The asset of a page: the uploaded file, byte for byte, with its label, and the dimensions of the
/// image in it as its metadata. It has no other attributes.
pub struct AssetDraft {
    pub role: &'static str,
    pub source: Vec<u8>,
    pub media_type: &'static str,
    pub width: Option<u32>,
    pub height: Option<u32>,
}

/// The page that a request adds to its scene, with its asset.
pub struct PageDraft {
    pub name: &'static str,
    pub width: u32,
    pub height: u32,
    pub asset: AssetDraft,
}

/// The contents of an [`AssetDraft`].
pub struct AssetDraftView {
    pub role: Seq<char>,
    pub source: Seq<u8>,
    pub media_type: Seq<char>,
    pub width: Option<u32>,
    pub height: Option<u32>,
}

/// The contents of a [`PageDraft`].
pub struct PageDraftView {
    pub name: Seq<char>,
    pub width: u32,
    pub height: u32,
    pub asset: AssetDraftView,
}

impl View for AssetDraft {
    type V = AssetDraftView;

    open spec fn view(&self) -> AssetDraftView {
        AssetDraftView {
            role: self.role@,
            source: self.source@,
            media_type: self.media_type@,
            width: self.width,
            height: self.height,
        }
    }
}

impl View for PageDraft {
    type V = PageDraftView;

    open spec fn view(&self) -> PageDraftView {
        PageDraftView {
            name: self.name@,
            width: self.width,
            height: self.height,
            asset: self.asset@,
        }
    }
}

/// The contents of a draft or an error.
pub open spec fn draft_view(r: Result<PageDraft, ApiError>) -> Result<PageDraftView, ApiErrorView> {
    match r {
        Ok(draft) => Ok(draft@),
        Err(error) => Err(error@),
    }
}

/// The draft for a file with the given decoding outcome and label: a page as large as the image,
/// with the file as its asset, or a bad request where the file does not decode.
pub open spec fn page_draft_of(
    source: Seq<u8>,
    decoded: Result<(u32, u32), Seq<char>>,
    media_type: Seq<char>,
) -> Result<PageDraftView, ApiErrorView> {
    match decoded {
        Ok((width, height)) => Ok(
            PageDraftView {
                name: "page"@,
                width,
                height,
                asset: AssetDraftView {
                    role: "source"@,
                    source,
                    media_type,
                    width: Some(width),
                    height: Some(height),
                },
            },
        ),
        Err(text) => Err(ApiErrorView::BadRequest("undecodable image: "@ + text)),
    }
}

/// Drafts the page for a file with the given decoding outcome and label.
pub fn page_draft(
    source: Vec<u8>,
    decoded: Result<(u32, u32), String>,
    media_type: &'static str,
) -> (r: Result<PageDraft, ApiError>)
    ensures
        draft_view(r) == page_draft_of(source@, dimensions_view(decoded), media_type@),
{
    match decoded {
        Ok((width, height)) => {
            let asset = AssetDraft {
                role: "source",
                source,
                media_type,
                width: Some(width),
                height: Some(height),
            };
            Ok(PageDraft { name: "page", width, height, asset })
        },
        Err(text) => Err(
            ApiError::BadRequest("undecodable image: ".to_owned().concat(text.as_str())),
        ),
    }
}

/// What the pipeline does with the pages in its scope.
#[derive(Clone, Copy, PartialEq, Eq, Structural)]
pub enum Operation {
    /// All stages, from detection on.
    Full,
}

/// Which pages the pipeline takes.
#[derive(Clone, Copy, PartialEq, Eq, Structural)]
pub enum Scope {
    /// The one page that was drafted for the request.
    DraftedPage,
}

/// What a page is waiting for.
pub enum PageStage {
    OpeningSession(PageDraft),
    DraftingPage,
    CommittingPage,
    Executing,
    Rendering,
    BuildingFrame,
    Rasterizing,
    Closed,
}

/// What is to be done for a page next.
pub enum PageAction {
    /// Open a scene session in memory.
    OpenSession,
    /// Draft the page into the session, as its one page, with its asset.
    DraftPage(PageDraft),
    /// Commit the draft to the session.
    CommitPage,
    /// Run the pipeline, on the page as the session now has it.
    Execute(Operation, Scope),
    /// Render the page.
    Render,
    /// Build the raster frame of the rendered page.
    BuildFrame,
    /// Rasterize the frame.
    Rasterize,
    /// The page is done.
    Finish(Result<PageImage, ApiError>),
    /// The event was not awaited and changes nothing.
    Ignore,
}

/// What came of the last action.
pub enum PageEvent {
    Done,
    Rasterized(PageImage),
    Failed(String),
}

/// The contents of a [`PageStage`].
pub enum PageStageView {
    OpeningSession(PageDraftView),
    DraftingPage,
    CommittingPage,
    Executing,
    Rendering,
    BuildingFrame,
    Rasterizing,
    Closed,
}

/// The contents of a [`PageAction`].
pub enum PageActionView {
    OpenSession,
    DraftPage(PageDraftView),
    CommitPage,
    Execute(Operation, Scope),
    Render,
    BuildFrame,
    Rasterize,
    Finish(Result<PageImageView, ApiErrorView>),
    Ignore,
}

/// The contents of a [`PageEvent`].
pub enum PageEventView {
    Done,
    Rasterized(PageImageView),
    Failed(Seq<char>),
}

impl View for PageStage {
    type V = PageStageView;

    open spec fn view(&self) -> PageStageView {
        match self {
            PageStage::OpeningSession(draft) => PageStageView::OpeningSession(draft@),
            PageStage::DraftingPage => PageStageView::DraftingPage,
            PageStage::CommittingPage => PageStageView::CommittingPage,
            PageStage::Executing => PageStageView::Executing,
            PageStage::Rendering => PageStageView::Rendering,
            PageStage::BuildingFrame => PageStageView::BuildingFrame,
            PageStage::Rasterizing => PageStageView::Rasterizing,
            PageStage::Closed => PageStageView::Closed,
        }
    }
}

/// The contents of an image or an error.
pub open spec fn image_view(r: Result<PageImage, ApiError>) -> Result<PageImageView, ApiErrorView> {
    match r {
        Ok(image) => Ok(image@),
        Err(error) => Err(error@),
    }
}

impl View for PageAction {
    type V = PageActionView;

    open spec fn view(&self) -> PageActionView {
        match self {
            PageAction::OpenSession => PageActionView::OpenSession,
            PageAction::DraftPage(draft) => PageActionView::DraftPage(draft@),
            PageAction::CommitPage => PageActionView::CommitPage,
            PageAction::Execute(operation, scope) => PageActionView::Execute(*operation, *scope),
            PageAction::Render => PageActionView::Render,
            PageAction::BuildFrame => PageActionView::BuildFrame,
            PageAction::Rasterize => PageActionView::Rasterize,
            PageAction::Finish(result) => PageActionView::Finish(image_view(*result)),
            PageAction::Ignore => PageActionView::Ignore,
        }
    }
}

impl View for PageEvent {
    type V = PageEventView;

    open spec fn view(&self) -> PageEventView {
        match self {
            PageEvent::Done => PageEventView::Done,
            PageEvent::Rasterized(image) => PageEventView::Rasterized(image@),
            PageEvent::Failed(text) => PageEventView::Failed(text@),
        }
    }
}

/// Where a page goes from `stage` on `event`, and what is to be done. A failed action ends the
/// page with an internal error; a finished one leads to the next.
pub open spec fn page_next(stage: PageStageView, event: PageEventView) -> (
    PageStageView,
    PageActionView,
) {
    match (stage, event) {
        (PageStageView::Closed, _) => (stage, PageActionView::Ignore),
        (_, PageEventView::Failed(text)) => (
            PageStageView::Closed,
            PageActionView::Finish(Err(ApiErrorView::Internal(text))),
        ),
        (PageStageView::OpeningSession(draft), PageEventView::Done) => (
            PageStageView::DraftingPage,
            PageActionView::DraftPage(draft),
        ),
        (PageStageView::DraftingPage, PageEventView::Done) => (
            PageStageView::CommittingPage,
            PageActionView::CommitPage,
        ),
        (PageStageView::CommittingPage, PageEventView::Done) => (
            PageStageView::Executing,
            PageActionView::Execute(Operation::Full, Scope::DraftedPage),
        ),
        (PageStageView::Executing, PageEventView::Done) => (
            PageStageView::Rendering,
            PageActionView::Render,
        ),
        (PageStageView::Rendering, PageEventView::Done) => (
            PageStageView::BuildingFrame,
            PageActionView::BuildFrame,
        ),
        (PageStageView::BuildingFrame, PageEventView::Done) => (
            PageStageView::Rasterizing,
            PageActionView::Rasterize,
        ),
        (PageStageView::Rasterizing, PageEventView::Rasterized(image)) => (
            PageStageView::Closed,
            PageActionView::Finish(Ok(image)),
        ),
        _ => (stage, PageActionView::Ignore),
    }
}

/// A page on its way through the pipeline.
pub struct PageRun {
    stage: PageStage,
}

impl View for PageRun {
    type V = PageStageView;

    closed spec fn view(&self) -> PageStageView {
        self.stage@
    }
}

impl PageRun {
    /// Takes in what came of the last action and says what to do next.
    pub fn step(self, event: PageEvent) -> (r: (PageRun, PageAction))
        ensures
            (r.0@, r.1@) == page_next(self@, event@),
    {
        let (stage, action) = match (self.stage, event) {
            (PageStage::Closed, _) => (PageStage::Closed, PageAction::Ignore),
            (_, PageEvent::Failed(text)) => (
                PageStage::Closed,
                PageAction::Finish(Err(ApiError::internal(text))),
            ),
            (PageStage::OpeningSession(draft), PageEvent::Done) => (
                PageStage::DraftingPage,
                PageAction::DraftPage(draft),
            ),
            (PageStage::DraftingPage, PageEvent::Done) => (
                PageStage::CommittingPage,
                PageAction::CommitPage,
            ),
            (PageStage::CommittingPage, PageEvent::Done) => (
                PageStage::Executing,
                PageAction::Execute(Operation::Full, Scope::DraftedPage),
            ),
            (PageStage::Executing, PageEvent::Done) => (PageStage::Rendering, PageAction::Render),
            (PageStage::Rendering, PageEvent::Done) => (
                PageStage::BuildingFrame,
                PageAction::BuildFrame,
            ),
            (PageStage::BuildingFrame, PageEvent::Done) => (
                PageStage::Rasterizing,
                PageAction::Rasterize,
            ),
            (PageStage::Rasterizing, PageEvent::Rasterized(image)) => (
                PageStage::Closed,
                PageAction::Finish(Ok(image)),
            ),
            (stage, _) => (stage, PageAction::Ignore),
        };
        (PageRun { stage }, action)
    }
}

/// The contents of a page under way with its first action, or an error.
pub open spec fn run_view(r: Result<(PageRun, PageAction), ApiError>) -> Result<
    (PageStageView, PageActionView),
    ApiErrorView,
> {
    match r {
        Ok((run, action)) => Ok((run@, action@)),
        Err(error) => Err(error@),
    }
}

/// How a page starts, given its draft: with the opening of a session, or not at all.
pub open spec fn page_start(draft: Result<PageDraftView, ApiErrorView>) -> Result<
    (PageStageView, PageActionView),
    ApiErrorView,
> {
    match draft {
        Ok(draft) => Ok((PageStageView::OpeningSession(draft), PageActionView::OpenSession)),
        Err(error) => Err(error),
    }
}

/// Starts a page from its draft.
pub fn start_page(draft: Result<PageDraft, ApiError>) -> (r: Result<
    (PageRun, PageAction),
    ApiError,
>)
    ensures
        run_view(r) == page_start(draft_view(draft)),
{
    match draft {
        Ok(draft) => Ok(
            (PageRun { stage: PageStage::OpeningSession(draft) }, PageAction::OpenSession),
        ),
        Err(error) => Err(error),
    }
}

/// Starts the translation of an uploaded file. A file that does not decode is a bad request, and
/// nothing is started for it.
pub fn translate_image(source: Vec<u8>) -> (r: Result<(PageRun, PageAction), ApiError>)
    ensures
        run_view(r) == page_start(
            page_draft_of(source@, decoded_dimensions(source@), media_type_of(source@)),
        ),
{
    let decoded = load_dimensions(source.as_slice());
    let label = media_type(source.as_slice());
    start_page(page_draft(source, decoded, label))
}

/// Where a page is after `events`, and what was to be done on the way, without what was ignored.
pub open spec fn page_run(stage: PageStageView, events: Seq<PageEventView>) -> (
    PageStageView,
    Seq<PageActionView>,
)
    decreases events.len(),
{
    if events.len() == 0 {
        (stage, Seq::empty())
    } else {
        let (before, actions) = page_run(stage, events.drop_last());
        let (after, action) = page_next(before, events.last());
        (
            after,
            if action is Ignore {
                actions
            } else {
                actions.push(action)
            },
        )
    }
}

/// The actions that follow the opening of the session, in their order.
pub open spec fn page_script(draft: PageDraftView) -> Seq<PageActionView> {
    seq![
        PageActionView::DraftPage(draft),
        PageActionView::CommitPage,
        PageActionView::Execute(Operation::Full, Scope::DraftedPage),
        PageActionView::Render,
        PageActionView::BuildFrame,
        PageActionView::Rasterize,
    ]
}

/// The stage of a page on which the first `done` actions of the script have been started.
pub open spec fn page_stage_at(draft: PageDraftView, done: int) -> PageStageView {
    if done == 0 {
        PageStageView::OpeningSession(draft)
    } else if done == 1 {
        PageStageView::DraftingPage
    } else if done == 2 {
        PageStageView::CommittingPage
    } else if done == 3 {
        PageStageView::Executing
    } else if done == 4 {
        PageStageView::Rendering
    } else if done == 5 {
        PageStageView::BuildingFrame
    } else {
        PageStageView::Rasterizing
    }
}

/// Whatever happens, a page goes through its actions in the one order, none twice and none left
/// out, and ends at most once: with the image after the last action, or with an internal error
/// after any.
pub proof fn page_keeps_its_order(draft: PageDraftView, events: Seq<PageEventView>)
    ensures
        ({
            let (stage, actions) = page_run(PageStageView::OpeningSession(draft), events);
            let script = page_script(draft);
            if stage is Closed {
                &&& 1 <= actions.len() <= script.len() + 1
                &&& actions.drop_last() == script.take(actions.len() - 1)
                &&& match actions.last() {
                    PageActionView::Finish(Ok(_)) => actions.len() == script.len() + 1,
                    PageActionView::Finish(Err(error)) => error is Internal,
                    _ => false,
                }
            } else {
                &&& actions.len() <= script.len()
                &&& actions == script.take(actions.len() as int)
                &&& stage == page_stage_at(draft, actions.len() as int)
            }
        }),
    decreases events.len(),
{
    let script = page_script(draft);
    let start = PageStageView::OpeningSession(draft);
    if events.len() == 0 {
        assert(script.take(0) =~= Seq::empty());
    } else {
        page_keeps_its_order(draft, events.drop_last());
        let (before, actions) = page_run(start, events.drop_last());
        let (after, action) = page_next(before, events.last());
        if !(action is Ignore) {
            assert(actions.push(action).drop_last() =~= actions);
            if !(after is Closed) {
                assert(script.take(actions.len() as int + 1) =~= actions.push(action));
            }
        }
    }
}

/// The events of a page on which everything succeeds.
pub open spec fn undisturbed(image: PageImageView) -> Seq<PageEventView> {
    Seq::new(6, |i: int| PageEventView::Done).push(PageEventView::Rasterized(image))
}

/// A page on which every action succeeds ends with the image that was rasterized.
pub proof fn undisturbed_page_is_rendered(draft: PageDraftView, image: PageImageView)
    ensures
        page_run(PageStageView::OpeningSession(draft), undisturbed(image)) == (
            PageStageView::Closed,
            page_script(draft).push(PageActionView::Finish(Ok(image))),
        ),
{
    let start = PageStageView::OpeningSession(draft);
    let events = undisturbed(image);
    let dones = Seq::new(6, |i: int| PageEventView::Done);
    assert(events.drop_last() =~= dones);
    assert(dones.drop_last() =~= dones.take(5));
    assert(dones.take(5).drop_last() =~= dones.take(4));
    assert(dones.take(4).drop_last() =~= dones.take(3));
    assert(dones.take(3).drop_last() =~= dones.take(2));
    assert(dones.take(2).drop_last() =~= dones.take(1));
    assert(dones.take(1).drop_last() =~= dones.take(0));
    assert(page_run(start, dones.take(0)).1 =~= page_script(draft).take(0));
    assert(page_run(start, dones.take(1)).1 =~= page_script(draft).take(1));
    assert(page_run(start, dones.take(2)).1 =~= page_script(draft).take(2));
    assert(page_run(start, dones.take(3)).1 =~= page_script(draft).take(3));
    assert(page_run(start, dones.take(4)).1 =~= page_script(draft).take(4));
    assert(page_run(start, dones.take(5)).1 =~= page_script(draft).take(5));
    assert(page_run(start, dones).1 =~= page_script(draft));
}

/// A failure of any action ends the page at once with an internal error that holds its text.
pub proof fn page_failure_is_internal(stage: PageStageView, text: Seq<char>)
    requires
        !(stage is Closed),
    ensures
        page_next(stage, PageEventView::Failed(text)) == (
            PageStageView::Closed,
            PageActionView::Finish(Err(ApiErrorView::Internal(text))),
        ),
{
}

/// The label goes by the first bytes: the JPEG marker, or a RIFF header of the type `WEBP`; all
/// other content is PNG.
pub proof fn label_goes_by_the_first_bytes(bytes: Seq<u8>)
    ensures
        bytes.len() >= 3 && bytes[0] == 0xff && bytes[1] == 0xd8 && bytes[2] == 0xff
            ==> media_type_of(bytes) == "image/jpeg"@,
        bytes.len() >= 12 && bytes[0] == 0x52 && bytes[1] == 0x49 && bytes[2] == 0x46 && bytes[3]
            == 0x46 && bytes[8] == 0x57 && bytes[9] == 0x45 && bytes[10] == 0x42 && bytes[11]
            == 0x50 ==> media_type_of(bytes) == "image/webp"@,
        !(bytes.len() >= 3 && bytes[0] == 0xff && bytes[1] == 0xd8 && bytes[2] == 0xff) && !(
        bytes.len() >= 12 && bytes[0] == 0x52 && bytes[1] == 0x49 && bytes[2] == 0x46 && bytes[3]
            == 0x46 && bytes[8] == 0x57 && bytes[9] == 0x45 && bytes[10] == 0x42 && bytes[11]
            == 0x50) ==> media_type_of(bytes) == "image/png"@,
{
    if bytes.len() >= 3 {
        let marker = seq![0xffu8, 0xd8u8, 0xffu8];
        assert(bytes.take(3)[0] == bytes[0] && bytes.take(3)[1] == bytes[1] && bytes.take(3)[2]
            == bytes[2]);
        if bytes[0] == 0xff && bytes[1] == 0xd8 && bytes[2] == 0xff {
            assert(bytes.take(3) =~= marker);
        }
        if bytes.take(3) == marker {
            assert(marker[0] == 0xff && marker[1] == 0xd8 && marker[2] == 0xff);
        }
    }
    if bytes.len() >= 12 {
        let riff = seq![0x52u8, 0x49u8, 0x46u8, 0x46u8];
        let webp = seq![0x57u8, 0x45u8, 0x42u8, 0x50u8];
        let head = bytes.subrange(0, 4);
        let kind = bytes.subrange(8, 12);
        assert(head[0] == bytes[0] && head[1] == bytes[1] && head[2] == bytes[2] && head[3]
            == bytes[3]);
        assert(kind[0] == bytes[8] && kind[1] == bytes[9] && kind[2] == bytes[10] && kind[3]
            == bytes[11]);
        assert(riff[0] == 0x52 && riff[1] == 0x49 && riff[2] == 0x46 && riff[3] == 0x46);
        assert(webp[0] == 0x57 && webp[1] == 0x45 && webp[2] == 0x42 && webp[3] == 0x50);
        if bytes[0] == 0x52 && bytes[1] == 0x49 && bytes[2] == 0x46 && bytes[3] == 0x46 {
            assert(head =~= riff);
        }
        if bytes[8] == 0x57 && bytes[9] == 0x45 && bytes[10] == 0x42 && bytes[11] == 0x50 {
            assert(kind =~= webp);
        }
    }
}

/// Each format that is told apart has its label.
pub proof fn formats_have_their_labels()
    ensures
        media_type_of_format(GuessedFormat::Jpeg) == "image/jpeg"@,
        media_type_of_format(GuessedFormat::WebP) == "image/webp"@,
        media_type_of_format(GuessedFormat::Other) == "image/png"@,
{
}

/// An upload that decodes is drafted as one page of its size, with the upload itself as its source,
/// and then goes, as long as everything succeeds, through commit, full pipeline, rendering, frame
/// and raster, to the image that was rasterized; after that nothing happens. So it does whatever
/// the upload is.
pub proof fn upload_goes_through_the_pipeline(
    source: Seq<u8>,
    width: u32,
    height: u32,
    media_type: Seq<char>,
    image: PageImageView,
    after: PageEventView,
)
    ensures
        ({
            let done = PageEventView::Done;
            let start = page_start(page_draft_of(source, Ok((width, height)), media_type));
            let drafted = page_next(start->Ok_0.0, done);
            let committed = page_next(drafted.0, done);
            let executed = page_next(committed.0, done);
            let rendered = page_next(executed.0, done);
            let framed = page_next(rendered.0, done);
            let rasterized = page_next(framed.0, done);
            let finished = page_next(rasterized.0, PageEventView::Rasterized(image));
            let ignored = page_next(finished.0, after);
            &&& start is Ok
            &&& start->Ok_0.1 is OpenSession
            &&& drafted.1 == PageActionView::DraftPage(
                PageDraftView {
                    name: "page"@,
                    width,
                    height,
                    asset: AssetDraftView {
                        role: "source"@,
                        source,
                        media_type,
                        width: Some(width),
                        height: Some(height),
                    },
                },
            )
            &&& committed.1 is CommitPage
            &&& executed.1 == PageActionView::Execute(Operation::Full, Scope::DraftedPage)
            &&& rendered.1 is Render
            &&& framed.1 is BuildFrame
            &&& rasterized.1 is Rasterize
            &&& finished.1 == PageActionView::Finish(Ok(image))
            &&& ignored.1 is Ignore
        }),
{
}

/// An upload that does not decode starts nothing, and the reason is handed on.
pub proof fn undecodable_upload_starts_nothing(
    source: Seq<u8>,
    text: Seq<char>,
    media_type: Seq<char>,
)
    ensures
        page_start(page_draft_of(source, Err(text), media_type)) == Err::<
            (PageStageView, PageActionView),
            ApiErrorView,
        >(ApiErrorView::BadRequest("undecodable image: "@ + text)),
{
}

/// However a page of an upload goes, its actions are those of the one order as far as it has come:
/// no image is finished that was not drafted, committed, executed, rendered, framed and rasterized
/// before.
pub proof fn started_page_keeps_its_order(
    source: Seq<u8>,
    width: u32,
    height: u32,
    media_type: Seq<char>,
    events: Seq<PageEventView>,
)
    ensures
        ({
            let start = page_start(page_draft_of(source, Ok((width, height)), media_type));
            let draft = PageDraftView {
                name: "page"@,
                width,
                height,
                asset: AssetDraftView {
                    role: "source"@,
                    source,
                    media_type,
                    width: Some(width),
                    height: Some(height),
                },
            };
            let order = seq![
                PageActionView::DraftPage(draft),
                PageActionView::CommitPage,
                PageActionView::Execute(Operation::Full, Scope::DraftedPage),
                PageActionView::Render,
                PageActionView::BuildFrame,
                PageActionView::Rasterize,
            ];
            let (stage, actions) = page_run(start->Ok_0.0, events);
            &&& start is Ok
            &&& stage is Closed ==> actions.len() >= 1 && actions.len() <= 7 && actions.drop_last()
                == order.take(actions.len() - 1) && actions.last() is Finish
            &&& !(stage is Closed) ==> actions.len() <= 6 && actions == order.take(
                actions.len() as int,
            )
            &&& forall|i: int|
                0 <= i < actions.len() ==> ((#[trigger] actions[i]) matches PageActionView::Finish(
                    Ok(_),
                ) ==> i == 6 && actions.take(6) == order)
        }),
{
    let draft = PageDraftView {
        name: "page"@,
        width,
        height,
        asset: AssetDraftView {
            role: "source"@,
            source,
            media_type,
            width: Some(width),
            height: Some(height),
        },
    };
    let order = page_script(draft);
    page_keeps_its_order(draft, events);
    let (stage, actions) = page_run(PageStageView::OpeningSession(draft), events);
    assert forall|i: int| 0 <= i < actions.len() implies ((
    #[trigger] actions[i]) matches PageActionView::Finish(Ok(_)) ==> i == 6 && actions.take(6)
        == order) by {
        if actions[i] matches PageActionView::Finish(Ok(_)) {
            if stage is Closed {
                if i < actions.len() - 1 {
                    assert(actions.drop_last()[i] == order.take(actions.len() - 1)[i]);
                    assert(order[i] == actions[i]);
                }
                assert(i == actions.len() - 1);
                assert(actions.take(6) =~= actions.drop_last());
                assert(order.take(6) =~= order);
            } else {
                assert(order.take(actions.len() as int)[i] == order[i]);
            }
        }
    }
}

/// What a page is not waiting for changes nothing: an image before the raster, the mere end of an
/// action at the raster, and anything after the page is done.
pub proof fn page_ignores_what_it_does_not_await(
    stage: PageStageView,
    image: PageImageView,
    event: PageEventView,
)
    ensures
        !(stage is Rasterizing) ==> page_next(stage, PageEventView::Rasterized(image)) == (
            stage,
            PageActionView::Ignore,
        ),
        stage is Rasterizing || stage is Closed ==> page_next(stage, PageEventView::Done) == (
            stage,
            PageActionView::Ignore,
        ),
        stage is Closed ==> page_next(stage, event) == (stage, PageActionView::Ignore),
{
}

/// A file that was encoded is handed on, and an encoder's failure is an internal error with its
/// text.
pub proof fn encoder_failure_is_internal(png: Seq<u8>, text: Seq<char>)
    ensures
        png_outcome_of(Ok(png)) == Ok::<Seq<u8>, ApiErrorView>(png),
        png_outcome_of(Err(text)) == Err::<Seq<u8>, ApiErrorView>(ApiErrorView::Internal(text)),
{
}

/// The contents of drafts, actions and events are what they hold.
pub proof fn page_steps_are_shown_as_they_are(
    draft: PageDraft,
    action: PageAction,
    event: PageEvent,
)
    ensures
        draft@.name == draft.name@,
        draft@.width == draft.width,
        draft@.height == draft.height,
        draft@.asset.role == draft.asset.role@,
        draft@.asset.source == draft.asset.source@,
        draft@.asset.media_type == draft.asset.media_type@,
        draft@.asset.width == draft.asset.width,
        draft@.asset.height == draft.asset.height,
        match action {
            PageAction::OpenSession => action@ is OpenSession,
            PageAction::DraftPage(draft) => action@ == PageActionView::DraftPage(draft@),
            PageAction::CommitPage => action@ is CommitPage,
            PageAction::Execute(operation, scope) => action@ == PageActionView::Execute(
                operation,
                scope,
            ),
            PageAction::Render => action@ is Render,
            PageAction::BuildFrame => action@ is BuildFrame,
            PageAction::Rasterize => action@ is Rasterize,
            PageAction::Finish(Ok(image)) => action@ == PageActionView::Finish(Ok(image@)),
            PageAction::Finish(Err(error)) => action@ == PageActionView::Finish(Err(error@)),
            PageAction::Ignore => action@ is Ignore,
        },
        match event {
            PageEvent::Done => event@ is Done,
            PageEvent::Rasterized(image) => event@ == PageEventView::Rasterized(image@),
            PageEvent::Failed(text) => event@ == PageEventView::Failed(text@),
        },
{
}

/// The contents of results are those of the value or of the error.
pub proof fn results_are_shown_as_they_are(
    file: Vec<u8>,
    image: PageImage,
    draft: PageDraft,
    run: PageRun,
    action: PageAction,
    error: ApiError,
)
    ensures
        file_view(Ok(file)) == Ok::<Seq<u8>, ApiErrorView>(file@),
        file_view(Err(error)) == Err::<Seq<u8>, ApiErrorView>(error@),
        image_view(Ok(image)) == Ok::<PageImageView, ApiErrorView>(image@),
        image_view(Err(error)) == Err::<PageImageView, ApiErrorView>(error@),
        draft_view(Ok(draft)) == Ok::<PageDraftView, ApiErrorView>(draft@),
        draft_view(Err(error)) == Err::<PageDraftView, ApiErrorView>(error@),
        run_view(Ok((run, action))) == Ok::<(PageStageView, PageActionView), ApiErrorView>(
            (run@, action@),
        ),
        run_view(Err(error)) == Err::<(PageStageView, PageActionView), ApiErrorView>(error@),
{
}

} // verus!
