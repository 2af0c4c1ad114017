use image::RgbaImage;
use koharu_server::error::ApiError;
use koharu_server::page::{GuessedFormat, PageImage};
use koharu_server::translate::{
    encode_png, media_type, media_type_label, page_draft, png_outcome, start_page, translate_image,
    Operation, PageAction, PageEvent, PageRun, Scope,
};

fn page_image(image: RgbaImage) -> PageImage {
    let (width, height) = image.dimensions();
    PageImage::new(width, height, image.into_raw()).unwrap()
}

fn encoded(image: image::DynamicImage, format: image::ImageFormat) -> Vec<u8> {
    let mut bytes = std::io::Cursor::new(Vec::new());
    image.write_to(&mut bytes, format).unwrap();
    bytes.into_inner()
}

#[test]
fn encode_png_produces_decodable_png() {
    let image = RgbaImage::from_pixel(4, 2, image::Rgba([10, 20, 30, 255]));
    let bytes = encode_png(page_image(image)).unwrap();
    let decoded = image::load_from_memory(&bytes).unwrap();
    assert_eq!((decoded.width(), decoded.height()), (4, 2));
}

#[test]
fn encoded_pixels_survive() {
    let mut image = RgbaImage::new(3, 2);
    for (x, y, pixel) in image.enumerate_pixels_mut() {
        *pixel = image::Rgba([x as u8, y as u8, 200, 100]);
    }
    let bytes = encode_png(page_image(image.clone())).unwrap();
    assert_eq!(&bytes[..8], b"\x89PNG\r\n\x1a\n");
    assert_eq!(media_type(&bytes), "image/png");
    assert_eq!(image::load_from_memory(&bytes).unwrap().to_rgba8(), image);
}

#[test]
fn page_without_pixels_cannot_be_encoded() {
    for (width, height) in [(0, 0), (0, 5), (5, 0)] {
        let image = PageImage::new(width, height, vec![]).unwrap();
        let Err(ApiError::Internal(detail)) = encode_png(image) else { panic!("encoded") };
        assert!(detail.contains("not allowed"));
    }
}

#[test]
fn encoder_failures_are_internal() {
    assert_eq!(png_outcome(Ok(vec![1, 2])).unwrap(), vec![1, 2]);
    let failed = png_outcome(Err("no space".to_string()));
    assert!(matches!(failed, Err(ApiError::Internal(detail)) if detail == "no space"));
}

#[test]
fn media_type_guesses_from_magic_bytes() {
    let png = encoded(image::DynamicImage::new_rgba8(2, 2), image::ImageFormat::Png);
    assert_eq!(media_type(&png), "image/png");
    // JPEG SOI + JFIF marker.
    assert_eq!(media_type(&[0xFF, 0xD8, 0xFF, 0xE0]), "image/jpeg");
    assert_eq!(media_type(b"not an image"), "image/png");
}

#[test]
fn media_type_knows_webp() {
    let webp = encoded(image::DynamicImage::new_rgba8(2, 2), image::ImageFormat::WebP);
    assert_eq!(media_type(&webp), "image/webp");
    assert_eq!(media_type(b"RIFF\x01\x02\x03\x04WEBP"), "image/webp");
    assert_eq!(media_type(b"RIFF\x01\x02\x03\x04WAVE"), "image/png");
    assert_eq!(media_type(b"RIFF\x01\x02\x03\x04WEB"), "image/png");
}

#[test]
fn media_type_of_other_formats_is_png() {
    let gif = encoded(image::DynamicImage::new_rgba8(2, 2), image::ImageFormat::Gif);
    assert_eq!(media_type(&gif), "image/png");
    assert_eq!(media_type(&[0xFF, 0xD8]), "image/png");
    assert_eq!(media_type(&[]), "image/png");
    assert_eq!(media_type_label(GuessedFormat::Other), "image/png");
    assert_eq!(media_type_label(GuessedFormat::Jpeg), "image/jpeg");
    assert_eq!(media_type_label(GuessedFormat::WebP), "image/webp");
}

#[test]
fn pixels_have_to_match_the_dimensions() {
    assert!(PageImage::new(2, 2, vec![0; 16]).is_some());
    assert!(PageImage::new(2, 2, vec![0; 15]).is_none());
    assert!(PageImage::new(u32::MAX, u32::MAX, vec![]).is_none());
    assert_eq!(PageImage::new(0x4000_0000, 0, vec![]).is_some(), usize::BITS == 64);
    let (width, height, pixels) = PageImage::new(1, 2, vec![7; 8]).unwrap().into_parts();
    assert_eq!((width, height, pixels), (1, 2, vec![7; 8]));
}

#[test]
fn undecodable_upload_is_a_bad_request() {
    let Err(ApiError::BadRequest(text)) = translate_image(b"not an image".to_vec()) else {
        panic!("a page was started")
    };
    assert!(text.starts_with("undecodable image: "));
    let truncated = encoded(image::DynamicImage::new_rgba8(9, 9), image::ImageFormat::Png);
    assert!(matches!(
        translate_image(truncated[..20].to_vec()),
        Err(ApiError::BadRequest(_))
    ));
    let refused = page_draft(vec![1], Err("odd".to_string()), "image/png");
    assert!(matches!(
        refused,
        Err(ApiError::BadRequest(text)) if text == "undecodable image: odd"
    ));
}

#[test]
fn draft_has_the_size_and_the_label_of_the_upload() {
    let upload = encoded(image::DynamicImage::new_rgb8(5, 3), image::ImageFormat::Jpeg);
    let (run, action) = translate_image(upload.clone()).ok().unwrap();
    assert!(matches!(action, PageAction::OpenSession));
    let (_, action) = run.step(PageEvent::Done);
    let PageAction::DraftPage(draft) = action else { panic!("no draft") };
    assert_eq!((draft.width, draft.height), (5, 3));
    assert_eq!(draft.name, "page");
    assert_eq!(draft.asset.role, "source");
    assert_eq!(draft.asset.media_type, "image/jpeg");
    assert_eq!(draft.asset.source, upload);
    assert_eq!((draft.asset.width, draft.asset.height), (Some(5), Some(3)));
}

fn started() -> PageRun {
    start_page(page_draft(vec![0], Ok((1, 1)), "image/png")).ok().unwrap().0
}

fn after(done: usize) -> PageRun {
    let mut run = started();
    for _ in 0..done {
        run = run.step(PageEvent::Done).0;
    }
    run
}

#[test]
fn page_goes_through_its_actions_in_order() {
    let run = started();
    let (run, action) = run.step(PageEvent::Done);
    assert!(matches!(action, PageAction::DraftPage(_)));
    let (run, action) = run.step(PageEvent::Done);
    assert!(matches!(action, PageAction::CommitPage));
    let (run, action) = run.step(PageEvent::Done);
    assert!(matches!(action, PageAction::Execute(Operation::Full, Scope::DraftedPage)));
    let (run, action) = run.step(PageEvent::Done);
    assert!(matches!(action, PageAction::Render));
    let (run, action) = run.step(PageEvent::Done);
    assert!(matches!(action, PageAction::BuildFrame));
    let (run, action) = run.step(PageEvent::Done);
    assert!(matches!(action, PageAction::Rasterize));
    let image = PageImage::new(1, 1, vec![1, 2, 3, 4]).unwrap();
    let (run, action) = run.step(PageEvent::Rasterized(image));
    let PageAction::Finish(Ok(image)) = action else { panic!("not finished") };
    assert_eq!(image.into_parts(), (1, 1, vec![1, 2, 3, 4]));
    let (_, action) = run.step(PageEvent::Done);
    assert!(matches!(action, PageAction::Ignore));
}

#[test]
fn failure_anywhere_ends_the_page() {
    for done in 0..7 {
        let (run, action) = after(done).step(PageEvent::Failed("lost".to_string()));
        let PageAction::Finish(Err(ApiError::Internal(detail))) = action else {
            panic!("not ended")
        };
        assert_eq!(detail, "lost");
        let (_, action) = run.step(PageEvent::Failed("again".to_string()));
        assert!(matches!(action, PageAction::Ignore));
    }
}

#[test]
fn image_out_of_turn_is_ignored() {
    for done in 0..6 {
        let image = PageImage::new(1, 1, vec![0; 4]).unwrap();
        let (_, action) = after(done).step(PageEvent::Rasterized(image));
        assert!(matches!(action, PageAction::Ignore));
    }
    let (_, action) = after(6).step(PageEvent::Done);
    assert!(matches!(action, PageAction::Ignore));
}
