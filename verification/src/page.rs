//! Page images: reading the dimensions of an upload, labelling its format, and writing a
//! rendered page as PNG.
use vstd::prelude::*;
use vstd::string::*;

verus! {

/// Whether `bytes` begins with `prefix`.
pub open spec fn starts_with(bytes: Seq<u8>, prefix: Seq<u8>) -> bool {
    &&& prefix.len() <= bytes.len()
    &&& bytes.take(prefix.len() as int) == prefix
}

/// Whether `bytes` begins with the JPEG start-of-image marker and another marker.
pub open spec fn is_jpeg(bytes: Seq<u8>) -> bool {
    starts_with(bytes, seq![0xffu8, 0xd8u8, 0xffu8])
}

/// Whether `bytes` begins with a RIFF header of the type `WEBP`, whatever size it gives.
pub open spec fn is_webp(bytes: Seq<u8>) -> bool {
    &&& bytes.len() >= 12
    &&& bytes.subrange(0, 4) == seq![0x52u8, 0x49u8, 0x46u8, 0x46u8]
    &&& bytes.subrange(8, 12) == seq![0x57u8, 0x45u8, 0x42u8, 0x50u8]
}

/// The first eight bytes of every PNG file.
pub open spec fn png_signature() -> Seq<u8> {
    seq![0x89u8, 0x50u8, 0x4eu8, 0x47u8, 0x0du8, 0x0au8, 0x1au8, 0x0au8]
}

/// An image format, as far as the service tells formats apart.
#[derive(Clone, Copy, PartialEq, Eq, Structural)]
pub enum GuessedFormat {
    Jpeg,
    WebP,
    Other,
}

/// What `image::load_from_memory` makes of a file: the width and the height of the image in it,
/// or the text of the error.
pub uninterp spec fn decoded_dimensions(bytes: Seq<u8>) -> Result<(u32, u32), Seq<char>>;

/// The PNG file that `image` writes for 8-bit RGBA pixels in rows, or the text of the error.
pub uninterp spec fn png_encoding(width: u32, height: u32, pixels: Seq<u8>) -> Result<
    Seq<u8>,
    Seq<char>,
>;

/// What `image::load_from_memory` reads from a file with the PNG signature, as 8-bit RGBA, where it
/// reads anything.
pub uninterp spec fn png_pixels(file: Seq<u8>) -> Option<PageImageView>;

/// Whether the pixels of an image take at most 512 MiB, as much as a decoder may use.
pub open spec fn fits_decoder(width: u32, height: u32) -> bool {
    4 * width * height <= 0x2000_0000
}

/// An image from its dimensions and its pixels.
pub open spec fn page_of(width: u32, height: u32, pixels: Seq<u8>) -> Option<PageImageView> {
    Some(PageImageView { width, height, pixels })
}

/// Whether `file` is a PNG of `image`: it has the signature, and as long as a decoder may hold the
/// image, it decodes to the same dimensions and the same pixels.
pub open spec fn is_png_of(file: Seq<u8>, image: PageImageView) -> bool {
    &&& starts_with(file, png_signature())
    &&& fits_decoder(image.width, image.height) ==> decodes_as(file, image.width, image.height)
    &&& fits_decoder(image.width, image.height) ==> png_pixels(file) == Some(image)
}

/// Whether `file` decodes as an image of the given dimensions.
pub open spec fn decodes_as(file: Seq<u8>, width: u32, height: u32) -> bool {
    decoded_dimensions(file) == Ok::<(u32, u32), Seq<char>>((width, height))
}

/// `image::guess_format`: it goes by the first bytes alone. It answers JPEG and WebP for their
/// signatures and for nothing else; another format, and the error of an unknown one, are `Other`.
#[verifier::external_body]
pub(crate) fn guess_format(bytes: &[u8]) -> (r: GuessedFormat)
    ensures
        r == GuessedFormat::Jpeg <==> is_jpeg(bytes@),
        r == GuessedFormat::WebP <==> is_webp(bytes@),
{
    match image::guess_format(bytes) {
        Ok(image::ImageFormat::Jpeg) => GuessedFormat::Jpeg,
        Ok(image::ImageFormat::WebP) => GuessedFormat::WebP,
        Ok(_) => GuessedFormat::Other,
        Err(_) => GuessedFormat::Other,
    }
}

/// The contents of a pair of dimensions or an error text.
pub open spec fn dimensions_view(r: Result<(u32, u32), String>) -> Result<(u32, u32), Seq<char>> {
    match r {
        Ok(dimensions) => Ok(dimensions),
        Err(text) => Err(text@),
    }
}

/// The contents of a file or an error text.
pub open spec fn bytes_view(r: Result<Vec<u8>, String>) -> Result<Seq<u8>, Seq<char>> {
    match r {
        Ok(bytes) => Ok(bytes@),
        Err(text) => Err(text@),
    }
}

/// Whether what was read from a file agrees with its pixels as a PNG, if it has the signature of one.
pub open spec fn agrees_with_pixels(
    file: Seq<u8>,
    pixels: Option<PageImageView>,
    r: Result<(u32, u32), String>,
) -> bool {
    starts_with(file, png_signature()) ==> match r {
        Ok((width, height)) => pixels matches Some(image) && image.width == width && image.height
            == height,
        Err(_) => pixels is None,
    }
}

/// `image::load_from_memory`: decodes the whole image, of which the width and the height are
/// kept. Nothing more is said of which files it decodes. Of a file with the PNG signature they are
/// those of the pixels in it.
#[verifier::external_body]
pub(crate) fn load_dimensions(bytes: &[u8]) -> (r: Result<(u32, u32), String>)
    ensures
        dimensions_view(r) == decoded_dimensions(bytes@),
        agrees_with_pixels(bytes@, png_pixels(bytes@), r),
{
    match image::load_from_memory(bytes) {
        Ok(page) => Ok((page.width(), page.height())),
        Err(error) => Err(error.to_string()),
    }
}

/// `image::DynamicImage::write_to` in the PNG format, on 8-bit RGBA pixels. It fails for an image
/// without pixels and for no other; the text of the error has its causes behind it. What it writes
/// begins with the PNG signature, and `image::load_from_memory` reads the same dimensions and the
/// same pixels back as long as these take at most 512 MiB, its limit on memory. The row has to be
/// one that the machine can count the bytes of, also where there is none.
#[verifier::external_body]
pub(crate) fn write_png(width: u32, height: u32, pixels: Vec<u8>) -> (r: Result<Vec<u8>, String>)
    requires
        pixels@.len() == 4 * width * height,
        4 * width <= usize::MAX,
    ensures
        bytes_view(r) == png_encoding(width, height, pixels@),
        r is Ok <==> (width != 0 && height != 0),
        r matches Ok(png) ==> starts_with(png@, png_signature()),
        r matches Ok(png) ==> (fits_decoder(width, height) ==> decodes_as(png@, width, height)),
        r matches Ok(png) ==> (fits_decoder(width, height) ==> png_pixels(png@) == page_of(
            width,
            height,
            pixels@,
        )),
{
    let mut encoded = std::io::Cursor::new(Vec::new());
    let page = image::RgbaImage::from_raw(width, height, pixels).unwrap();
    match image::DynamicImage::ImageRgba8(page).write_to(&mut encoded, image::ImageFormat::Png) {
        Ok(()) => Ok(encoded.into_inner()),
        Err(error) => Err(format!("{:#}", anyhow::Error::from(error))),
    }
}

/// The pixels of a rendered page: 8-bit RGBA, row after row.
pub struct PageImage {
    width: u32,
    height: u32,
    pixels: Vec<u8>,
}

/// The contents of a [`PageImage`].
pub struct PageImageView {
    pub width: u32,
    pub height: u32,
    pub pixels: Seq<u8>,
}

impl View for PageImage {
    type V = PageImageView;

    closed spec fn view(&self) -> PageImageView {
        PageImageView { width: self.width, height: self.height, pixels: self.pixels@ }
    }
}

impl PageImage {
    #[verifier::type_invariant]
    spec fn well_formed(self) -> bool {
        &&& self.pixels@.len() == 4 * self.width * self.height
        &&& 4 * self.width <= usize::MAX
    }

    /// An image from its pixels, where there are as many as the dimensions ask for and the machine
    /// can count the bytes of a row.
    pub fn new(width: u32, height: u32, pixels: Vec<u8>) -> (r: Option<PageImage>)
        ensures
            r is Some <==> pixels@.len() == 4 * width * height && 4 * width <= usize::MAX,
            r matches Some(image) ==> image@ == (PageImageView { width, height, pixels: pixels@ }),
    {
        assert(0 <= width * height <= 0xffff_ffff * 0xffff_ffff) by (nonlinear_arith)
            requires
                0 <= width <= 0xffff_ffff,
                0 <= height <= 0xffff_ffff,
        ;
        let area: u128 = width as u128 * height as u128;
        assert(4 * area == 4 * width * height) by (nonlinear_arith)
            requires
                area == width * height,
        ;
        if pixels.len() as u128 == 4 * area && 4 * width as u128 <= usize::MAX as u128 {
            Some(PageImage { width, height, pixels })
        } else {
            None
        }
    }

    /// The dimensions and the pixels.
    pub fn into_parts(self) -> (r: (u32, u32, Vec<u8>))
        ensures
            r.0 == self@.width,
            r.1 == self@.height,
            r.2@ == self@.pixels,
            r.2@.len() == 4 * r.0 * r.1,
            4 * r.0 <= usize::MAX,
    {
        proof {
            use_type_invariant(&self);
        }
        (self.width, self.height, self.pixels)
    }
}

/// The contents of what was read or written are those of the value or of the reason.
pub proof fn outcomes_are_shown_as_they_are(bytes: Vec<u8>, width: u32, height: u32, text: String)
    ensures
        bytes_view(Ok(bytes)) == Ok::<Seq<u8>, Seq<char>>(bytes@),
        bytes_view(Err(text)) == Err::<Seq<u8>, Seq<char>>(text@),
        dimensions_view(Ok((width, height))) == Ok::<(u32, u32), Seq<char>>((width, height)),
        dimensions_view(Err(text)) == Err::<(u32, u32), Seq<char>>(text@),
{
}

} // verus!
