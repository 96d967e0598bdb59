//! The calls into the `image` crate that the local preprocessor makes.
//!
//! Decoding, resampling and encoding are the crate's work.  An image carries
//! the description of how it was made (decoded from bytes, then possibly
//! resized), and what the crate computes from an image is named as a
//! function of that description.
use vstd::prelude::*;

verus! {

#[verifier::external_type_specification]
#[verifier::external_body]
pub struct ExDynamicImage(image::DynamicImage);

#[verifier::external_type_specification]
#[verifier::external_body]
pub struct ExImageFormat(image::ImageFormat);

/// How an image was made: decoded from bytes, or resized from another image.
pub enum ImageSource {
    Bytes(Seq<u8>),
    Resized(Box<ImageSource>, u32, u32),
}

/// An image of the `image` crate, with the format guessed from the bytes it
/// was decoded from, and how it was made.
pub struct Image {
    inner: image::DynamicImage,
    format: Option<image::ImageFormat>,
    source: Ghost<ImageSource>,
}

impl Image {
    /// Whether the image knows the format it was decoded from.
    pub closed spec fn has_format(&self) -> bool {
        self.format is Some
    }
}

impl View for Image {
    type V = ImageSource;

    closed spec fn view(&self) -> ImageSource {
        self.source@
    }
}

/// Why an image could not be read, with the `Display` text of the crate's error.
#[derive(Debug)]
pub enum ImageReadFailure {
    /// Guessing the format from the leading bytes failed (an I/O error).
    Read(String),
    /// Decoding in the guessed format failed (an `ImageError`).
    Decode(String),
}

/// What reading bytes as an image gives: `None` when they decode, else
/// whether the format guess (`true`) or the decoding (`false`) failed, and
/// the error's text.
pub uninterp spec fn image_read_outcome(buffer: Seq<u8>) -> Option<(bool, Seq<char>)>;

/// The width of an image.
pub uninterp spec fn image_width_of(src: ImageSource) -> u32;

/// The height of an image.
pub uninterp spec fn image_height_of(src: ImageSource) -> u32;

/// The lossless WebP encoding of an image, or the error's text.
pub uninterp spec fn webp_lossless_of(src: ImageSource) -> Result<Seq<u8>, Seq<char>>;

/// The encoding of an image in the format guessed from the bytes it was
/// first decoded from, or the error's text.
pub uninterp spec fn own_format_encoding_of(src: ImageSource) -> Result<Seq<u8>, Seq<char>>;

/// `image::ImageReader::new(Cursor::new(buffer)).with_guessed_format()`,
/// then `decode()`: the decoded image, or the failing stage with the
/// `Display` text of its error, as `image_read_outcome` names it.  `decode`
/// fails when no format was guessed, so a decoded image knows its format.
#[verifier::external_body]
pub(crate) fn decode_image(buffer: &[u8]) -> (r: Result<Image, ImageReadFailure>)
    ensures
        match image_read_outcome(buffer@) {
            None => r matches Ok(img) && img@ == ImageSource::Bytes(buffer@) && img.has_format(),
            Some((true, t)) => r matches Err(ImageReadFailure::Read(m)) && m@ == t,
            Some((false, t)) => r matches Err(ImageReadFailure::Decode(m)) && m@ == t,
        },
{
    let reader = match image::ImageReader::new(std::io::Cursor::new(buffer)).with_guessed_format() {
        Ok(reader) => reader,
        Err(e) => return Err(ImageReadFailure::Read(e.to_string())),
    };
    let format = reader.format();
    match reader.decode() {
        Ok(img) => Ok(Image { inner: img, format, source: Ghost(ImageSource::Bytes(buffer@)) }),
        Err(e) => Err(ImageReadFailure::Decode(e.to_string())),
    }
}

/// `image::DynamicImage::width`.
#[verifier::external_body]
pub(crate) fn image_width(img: &Image) -> (w: u32)
    ensures
        w == image_width_of(img@),
{
    img.inner.width()
}

/// `image::DynamicImage::height`.
#[verifier::external_body]
pub(crate) fn image_height(img: &Image) -> (h: u32)
    ensures
        h == image_height_of(img@),
{
    img.inner.height()
}

/// `image::imageops::resize` with `FilterType::Lanczos3` to the given size,
/// wrapped as an RGBA8 `DynamicImage`; every branch of `resize` builds a
/// buffer of exactly the requested width and height.
#[verifier::external_body]
pub(crate) fn resize_lanczos3(img: &Image, width: u32, height: u32) -> (r: Image)
    ensures
        r@ == ImageSource::Resized(Box::new(img@), width, height),
        image_width_of(r@) == width,
        image_height_of(r@) == height,
        r.has_format() == img.has_format(),
{
    let resized = image::imageops::resize(&img.inner, width, height, image::imageops::FilterType::Lanczos3);
    Image {
        inner: image::DynamicImage::ImageRgba8(resized),
        format: img.format,
        source: Ghost(ImageSource::Resized(Box::new(img.source@), width, height)),
    }
}

/// `image::DynamicImage::write_with_encoder` with a lossless
/// `image::codecs::webp::WebPEncoder` writing into a fresh buffer; the error
/// is the `Display` text of the crate's `ImageError`.
#[verifier::external_body]
pub(crate) fn encode_webp_lossless(img: &Image) -> (r: Result<Vec<u8>, String>)
    ensures
        match webp_lossless_of(img@) {
            Ok(b) => r matches Ok(v) && v@ == b,
            Err(t) => r matches Err(m) && m@ == t,
        },
{
    let mut buf = Vec::new();
    match img.inner.write_with_encoder(image::codecs::webp::WebPEncoder::new_lossless(&mut buf)) {
        Ok(()) => Ok(buf),
        Err(e) => Err(e.to_string()),
    }
}

/// `image::DynamicImage::write_to` into a fresh buffer, in the format the
/// image was decoded from (`write_to` converts the color type to one the
/// format's encoder supports); the error is the `Display` text of the
/// crate's `ImageError`.
#[verifier::external_body]
pub(crate) fn encode_own_format(img: &Image) -> (r: Result<Vec<u8>, String>)
    requires
        img.has_format(),
    ensures
        match own_format_encoding_of(img@) {
            Ok(b) => r matches Ok(v) && v@ == b,
            Err(t) => r matches Err(m) && m@ == t,
        },
{
    let mut buf = Vec::new();
    let written = match img.format {
        Some(format) => img.inner.write_to(&mut std::io::Cursor::new(&mut buf), format),
        None => return Err(String::new()),
    };
    match written {
        Ok(()) => Ok(buf),
        Err(e) => Err(e.to_string()),
    }
}

} // verus!
