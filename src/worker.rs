use vstd::prelude::*;
use crate::codec::{Rgba8Pixels, encode_image, image_encoding};
use crate::format::{
    EncodePlan, TargetFormat, encode_plan, extension_of, format_for_path, lemma_format_depends_only_on_extension,
    lowercase_of, plan_for, png_level,
};

verus! {

/// One unit of work for the background worker, snapshotted at submit time.
pub struct CompressionRequest {
    pub input_path: String,
    pub output_path: String,
    pub quality: u8,
}

/// The terminal result of one request: a message for the status line.
pub enum CompressionOutcome {
    Success(String),
    Failure(String),
}

impl CompressionOutcome {
    pub open spec fn text(&self) -> Seq<char> {
        match self {
            CompressionOutcome::Success(m) => m@,
            CompressionOutcome::Failure(m) => m@,
        }
    }

    pub fn is_success(&self) -> (r: bool)
        ensures
            r == (self is Success),
    {
        match self {
            CompressionOutcome::Success(_) => true,
            CompressionOutcome::Failure(_) => false,
        }
    }

    /// The status line that this outcome sets.
    pub fn message(&self) -> (r: &String)
        ensures
            r@ == self.text(),
    {
        match self {
            CompressionOutcome::Success(m) => m,
            CompressionOutcome::Failure(m) => m,
        }
    }
}

pub open spec fn loading_error_text(detail: Seq<char>) -> Seq<char> {
    "Error loading image: "@ + detail
}

pub open spec fn unsupported_format_text() -> Seq<char> {
    "Error: unsupported format. Use .jpg, .png, or .webp"@
}

pub open spec fn saving_error_text(detail: Seq<char>) -> Seq<char> {
    "Error saving image: "@ + detail
}

pub open spec fn success_text(output_path: Seq<char>) -> Seq<char> {
    "Success: saved to "@ + output_path
}

/// Every message that a request can end with is non-empty, so an outcome
/// never clears the status line.
pub proof fn lemma_outcome_texts_not_empty(detail: Seq<char>, output_path: Seq<char>)
    ensures
        loading_error_text(detail).len() > 0,
        unsupported_format_text().len() > 0,
        saving_error_text(detail).len() > 0,
        success_text(output_path).len() > 0,
{
    reveal_strlit("Error loading image: ");
    reveal_strlit("Error: unsupported format. Use .jpg, .png, or .webp");
    reveal_strlit("Error saving image: ");
    reveal_strlit("Success: saved to ");
}

pub fn loading_error_message(detail: &str) -> (r: String)
    ensures
        r@ == loading_error_text(detail@),
{
    String::from_str("Error loading image: ").concat(detail)
}

pub fn unsupported_format_message() -> (r: String)
    ensures
        r@ == unsupported_format_text(),
{
    String::from_str("Error: unsupported format. Use .jpg, .png, or .webp")
}

pub fn saving_error_message(detail: &str) -> (r: String)
    ensures
        r@ == saving_error_text(detail@),
{
    String::from_str("Error saving image: ").concat(detail)
}

pub fn success_message(output_path: &str) -> (r: String)
    ensures
        r@ == success_text(output_path@),
{
    String::from_str("Success: saved to ").concat(output_path)
}

/// The worker's decision once the input has been decoded, or has failed to
/// decode with the reason given: either the plan to encode with, or the
/// outcome that ends the request.
pub fn after_decode(request: &CompressionRequest, decoded: Result<(), String>) -> (r: Result<
    EncodePlan,
    CompressionOutcome,
>)
    ensures
        decoded is Err ==> r is Err && r->Err_0 is Failure && r->Err_0.text() == loading_error_text(
            decoded->Err_0@,
        ),
        decoded is Ok ==> match format_for_path(request.output_path@) {
            Some(f) => r == Ok::<EncodePlan, CompressionOutcome>(plan_for(f, request.quality)),
            None => r is Err && r->Err_0 is Failure && r->Err_0.text() == unsupported_format_text(),
        },
{
    match decoded {
        Err(detail) => Err(CompressionOutcome::Failure(loading_error_message(detail.as_str()))),
        Ok(()) => match encode_plan(request.output_path.as_str(), request.quality) {
            Some(plan) => Ok(plan),
            None => Err(CompressionOutcome::Failure(unsupported_format_message())),
        },
    }
}

/// The outcome once the encoder has written the output, or has failed with
/// the reason given.
pub fn after_encode(request: &CompressionRequest, written: Result<(), String>) -> (r:
    CompressionOutcome)
    ensures
        written is Ok ==> r is Success && r.text() == success_text(request.output_path@),
        written is Err ==> r is Failure && r.text() == saving_error_text(written->Err_0@),
{
    match written {
        Ok(()) => CompressionOutcome::Success(success_message(request.output_path.as_str())),
        Err(detail) => CompressionOutcome::Failure(saving_error_message(detail.as_str())),
    }
}

/// What a request gives for a decoded image with a supported output path: the
/// encoding that the plan for its format and quality names.
pub open spec fn encoding_for_path(pixels: Rgba8Pixels, output_path: Seq<char>, quality: u8) -> Option<
    Result<Seq<u8>, Seq<char>>,
> {
    match format_for_path(output_path) {
        Some(f) => Some(image_encoding(pixels, plan_for(f, quality))),
        None => None,
    }
}

/// All the work of one request between decoding and writing: given the
/// decoded input as RGBA8 pixels, or the reason it could not be decoded, the
/// bytes to write to the output path, or the outcome that ends the request.
pub fn encode_request(request: &CompressionRequest, decoded: Result<Rgba8Pixels, String>) -> (r:
    Result<Vec<u8>, CompressionOutcome>)
    ensures
        decoded is Err ==> r is Err && r->Err_0 is Failure && r->Err_0.text() == loading_error_text(
            decoded->Err_0@,
        ),
        decoded is Ok && format_for_path(request.output_path@) is None ==> r is Err && r->Err_0 is Failure
            && r->Err_0.text() == unsupported_format_text(),
        decoded is Ok && format_for_path(request.output_path@) is Some ==> ({
            let e = encoding_for_path(decoded->Ok_0, request.output_path@, request.quality)->0;
            &&& r is Ok == e is Ok
            &&& r is Ok ==> r->Ok_0@ == e->Ok_0
            &&& r is Err ==> r->Err_0 is Failure && r->Err_0.text() == saving_error_text(e->Err_0)
        }),
{
    match decoded {
        Err(detail) => Err(CompressionOutcome::Failure(loading_error_message(detail.as_str()))),
        Ok(pixels) => match after_decode(request, Ok(())) {
            Err(outcome) => Err(outcome),
            Ok(plan) => match encode_image(&pixels, plan) {
                Ok(bytes) => Ok(bytes),
                Err(detail) => Err(CompressionOutcome::Failure(saving_error_message(detail.as_str()))),
            },
        },
    }
}

/// Output paths whose extensions agree once lowercased give the same result
/// for the same pixels and quality, whatever their folders and stems.
pub proof fn lemma_same_extension_same_bytes(
    pixels: Rgba8Pixels,
    p: Seq<char>,
    q: Seq<char>,
    quality: u8,
)
    requires
        extension_of(p).is_some() == extension_of(q).is_some(),
        extension_of(p).is_some() ==> lowercase_of(extension_of(p).unwrap()) == lowercase_of(
            extension_of(q).unwrap(),
        ),
    ensures
        encoding_for_path(pixels, p, quality) == encoding_for_path(pixels, q, quality),
{
    lemma_format_depends_only_on_extension(p, q);
}

/// Two qualities in the same PNG band give the same PNG result.
pub proof fn lemma_png_band_same_bytes(pixels: Rgba8Pixels, path: Seq<char>, q1: u8, q2: u8)
    requires
        format_for_path(path) == Some(TargetFormat::Png),
        png_level(q1 as int) == png_level(q2 as int),
    ensures
        encoding_for_path(pixels, path, q1) == encoding_for_path(pixels, path, q2),
{
}

/// Every quality gives the same lossless WebP result.
pub proof fn lemma_webp_ignores_quality(pixels: Rgba8Pixels, path: Seq<char>, q1: u8, q2: u8)
    requires
        format_for_path(path) == Some(TargetFormat::WebPLossless),
    ensures
        encoding_for_path(pixels, path, q1) == encoding_for_path(pixels, path, q2),
{
}

} // verus!
