use vstd::prelude::*;
use image::ImageEncoder;
use crate::format::{EncodePlan, PngCompression, PngFilter};

verus! {

/// An image as 8-bit RGBA samples, row by row.
pub struct Rgba8Pixels {
    pub width: u32,
    pub height: u32,
    pub samples: Vec<u8>,
}

impl Rgba8Pixels {
    /// Four samples for each pixel, no more and no fewer.
    pub open spec fn wf(&self) -> bool {
        self.samples@.len() == self.width * self.height * 4
    }
}

/// What `JpegEncoder::new_with_quality(_, quality).encode_image` writes for
/// these RGBA8 pixels, or the text of its error.
pub uninterp spec fn jpeg_encoding(samples: Seq<u8>, width: u32, height: u32, quality: u8) -> Result<
    Seq<u8>,
    Seq<char>,
>;

/// What `PngEncoder::new_with_quality(_, level, filter).write_image` writes for
/// these RGBA8 pixels, or the text of its error.
pub uninterp spec fn png_encoding(
    samples: Seq<u8>,
    width: u32,
    height: u32,
    level: PngCompression,
    filter: PngFilter,
) -> Result<Seq<u8>, Seq<char>>;

/// What `WebPEncoder::new_lossless(_).write_image` writes for these RGBA8
/// pixels, or the text of its error.
pub uninterp spec fn webp_lossless_encoding(samples: Seq<u8>, width: u32, height: u32) -> Result<
    Seq<u8>,
    Seq<char>,
>;

/// Relies on `ImageBuffer::from_raw`, which accepts a buffer of at least four
/// samples per pixel, and on `JpegEncoder::new_with_quality` and
/// `JpegEncoder::encode_image`: the pixels encoded as JPEG into memory at the
/// quality given, or the `Display` text of the encoder's error. The encoder
/// depends on its arguments alone.
#[verifier::external_body]
fn encode_jpeg(pixels: &Rgba8Pixels, quality: u8) -> (r: Result<Vec<u8>, String>)
    requires
        pixels.wf(),
    ensures
        r is Ok == jpeg_encoding(pixels.samples@, pixels.width, pixels.height, quality) is Ok,
        r is Ok ==> r->Ok_0@ == jpeg_encoding(pixels.samples@, pixels.width, pixels.height, quality)->Ok_0,
        r is Err ==> r->Err_0@ == jpeg_encoding(pixels.samples@, pixels.width, pixels.height, quality)->Err_0,
{
    let raw: &[u8] = &pixels.samples;
    let view = match image::RgbaImage::from_raw(pixels.width, pixels.height, raw.to_vec()) {
        Some(view) => view,
        None => return Err(String::from("buffer too small for the image")),
    };
    let mut out: Vec<u8> = Vec::new();
    let mut encoder = image::codecs::jpeg::JpegEncoder::new_with_quality(&mut out, quality);
    encoder.encode_image(&view).map_err(|e| e.to_string())?;
    Ok(out)
}

/// Relies on `PngEncoder::new_with_quality` and its `ImageEncoder::write_image`,
/// which panics unless the buffer holds exactly four samples for each pixel:
/// the pixels encoded as PNG into memory, or the `Display` text of the
/// encoder's error. The encoder depends on its arguments alone.
#[verifier::external_body]
fn encode_png(pixels: &Rgba8Pixels, compression: PngCompression, filter: PngFilter) -> (r: Result<
    Vec<u8>,
    String,
>)
    requires
        pixels.wf(),
    ensures
        r is Ok == png_encoding(pixels.samples@, pixels.width, pixels.height, compression, filter) is Ok,
        r is Ok ==> r->Ok_0@ == png_encoding(pixels.samples@, pixels.width, pixels.height, compression, filter)->Ok_0,
        r is Err ==> r->Err_0@ == png_encoding(pixels.samples@, pixels.width, pixels.height, compression, filter)->Err_0,
{
    let level = match compression {
        PngCompression::Fast => image::codecs::png::CompressionType::Fast,
        PngCompression::Default => image::codecs::png::CompressionType::Default,
        PngCompression::Best => image::codecs::png::CompressionType::Best,
    };
    let filter = match filter {
        PngFilter::Adaptive => image::codecs::png::FilterType::Adaptive,
    };
    let mut out: Vec<u8> = Vec::new();
    let encoder = image::codecs::png::PngEncoder::new_with_quality(&mut out, level, filter);
    let color = image::ExtendedColorType::Rgba8;
    encoder.write_image(&pixels.samples, pixels.width, pixels.height, color).map_err(|e| e.to_string())?;
    Ok(out)
}

/// Relies on `WebPEncoder::new_lossless` and its `ImageEncoder::write_image`,
/// which panics unless the buffer holds exactly four samples for each pixel:
/// the pixels encoded as lossless WebP into memory, or the `Display` text of
/// the encoder's error. The encoder depends on its arguments alone.
#[verifier::external_body]
fn encode_webp_lossless(pixels: &Rgba8Pixels) -> (r: Result<Vec<u8>, String>)
    requires
        pixels.wf(),
    ensures
        r is Ok == webp_lossless_encoding(pixels.samples@, pixels.width, pixels.height) is Ok,
        r is Ok ==> r->Ok_0@ == webp_lossless_encoding(pixels.samples@, pixels.width, pixels.height)->Ok_0,
        r is Err ==> r->Err_0@ == webp_lossless_encoding(pixels.samples@, pixels.width, pixels.height)->Err_0,
{
    let mut out: Vec<u8> = Vec::new();
    let encoder = image::codecs::webp::WebPEncoder::new_lossless(&mut out);
    let color = image::ExtendedColorType::Rgba8;
    encoder.write_image(&pixels.samples, pixels.width, pixels.height, color).map_err(|e| e.to_string())?;
    Ok(out)
}

/// Whether the buffer holds four samples for each pixel.
pub fn has_rgba8_layout(pixels: &Rgba8Pixels) -> (r: bool)
    ensures
        r == pixels.wf(),
{
    let w = pixels.width as u128;
    let h = pixels.height as u128;
    proof {
        assert(w * h <= 0xffff_ffffu128 * 0xffff_ffffu128) by (nonlinear_arith)
            requires
                w <= 0xffff_ffffu128,
                h <= 0xffff_ffffu128,
        ;
    }
    let area = w * h;
    area * 4 == pixels.samples.len() as u128
}

/// The reason given where a buffer does not hold four samples per pixel.
pub open spec fn layout_error_text() -> Seq<char> {
    "pixel buffer does not match the image size"@
}

/// What encoding the pixels as the plan says gives: the encoder's bytes, or
/// the reason it failed.
pub open spec fn image_encoding(pixels: Rgba8Pixels, plan: EncodePlan) -> Result<Seq<u8>, Seq<char>> {
    if !pixels.wf() {
        Err(layout_error_text())
    } else {
        match plan {
            EncodePlan::Jpeg { quality } => jpeg_encoding(
                pixels.samples@,
                pixels.width,
                pixels.height,
                quality,
            ),
            EncodePlan::Png { compression, filter } => png_encoding(
                pixels.samples@,
                pixels.width,
                pixels.height,
                compression,
                filter,
            ),
            EncodePlan::WebPLossless => webp_lossless_encoding(
                pixels.samples@,
                pixels.width,
                pixels.height,
            ),
        }
    }
}

/// Encodes the pixels into memory with the encoder and parameters that the
/// plan names; where the encoder fails, the reason in words.
pub fn encode_image(pixels: &Rgba8Pixels, plan: EncodePlan) -> (r: Result<Vec<u8>, String>)
    ensures
        r is Ok == image_encoding(*pixels, plan) is Ok,
        r is Ok ==> r->Ok_0@ == image_encoding(*pixels, plan)->Ok_0,
        r is Err ==> r->Err_0@ == image_encoding(*pixels, plan)->Err_0,
{
    if !has_rgba8_layout(pixels) {
        return Err(String::from_str("pixel buffer does not match the image size"));
    }
    match plan {
        EncodePlan::Jpeg { quality } => encode_jpeg(pixels, quality),
        EncodePlan::Png { compression, filter } => encode_png(pixels, compression, filter),
        EncodePlan::WebPLossless => encode_webp_lossless(pixels),
    }
}

} // verus!
