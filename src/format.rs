use vstd::prelude::*;

verus! {

/// The encoder chosen for a destination.
#[derive(Clone, Copy, Debug, PartialEq, Eq, Structural)]
pub enum TargetFormat {
    Jpeg,
    Png,
    WebPLossless,
}

/// The format that a lowercase extension selects.
pub open spec fn format_of_extension(ext: Seq<char>) -> Option<TargetFormat> {
    if ext == "jpg"@ || ext == "jpeg"@ {
        Some(TargetFormat::Jpeg)
    } else if ext == "png"@ {
        Some(TargetFormat::Png)
    } else if ext == "webp"@ {
        Some(TargetFormat::WebPLossless)
    } else {
        None
    }
}

/// True when the two strings hold the same characters.
pub fn same_text(a: &str, b: &str) -> (r: bool)
    ensures
        r == (a@ == b@),
{
    let n = a.unicode_len();
    if n != b.unicode_len() {
        return false;
    }
    let mut i: usize = 0;
    while i < n
        invariant
            n == a@.len(),
            n == b@.len(),
            i <= n,
            a@.subrange(0, i as int) == b@.subrange(0, i as int),
        decreases n - i,
    {
        if a.get_char(i) != b.get_char(i) {
            return false;
        }
        assert(a@.subrange(0, i + 1) == a@.subrange(0, i as int).push(a@[i as int]));
        assert(b@.subrange(0, i + 1) == b@.subrange(0, i as int).push(b@[i as int]));
        i = i + 1;
    }
    assert(a@ == a@.subrange(0, n as int));
    assert(b@ == b@.subrange(0, n as int));
    true
}

/// Maps a lowercase extension to its format; any other extension has none.
pub fn target_format_for_extension(ext: &str) -> (r: Option<TargetFormat>)
    ensures
        r == format_of_extension(ext@),
{
    if same_text(ext, "jpg") || same_text(ext, "jpeg") {
        Some(TargetFormat::Jpeg)
    } else if same_text(ext, "png") {
        Some(TargetFormat::Png)
    } else if same_text(ext, "webp") {
        Some(TargetFormat::WebPLossless)
    } else {
        None
    }
}

/// What `std::path::Path::extension` gives for a path, as text.
pub uninterp spec fn extension_of(path: Seq<char>) -> Option<Seq<char>>;

/// What `str::to_lowercase` gives for a text.
pub uninterp spec fn lowercase_of(s: Seq<char>) -> Seq<char>;

/// Relies on `std::path::Path::extension`: the part of the file name after its
/// last `.`, or nothing; it depends on the path alone.
#[verifier::external_body]
fn path_extension(path: &str) -> (r: Option<String>)
    ensures
        r.is_some() == extension_of(path@).is_some(),
        r.is_some() ==> r.unwrap()@ == extension_of(path@).unwrap(),
{
    let ext = std::path::Path::new(path).extension()?;
    Some(ext.to_string_lossy().into_owned())
}

/// Relies on `str::to_lowercase`: the lowercase mapping of each character; it
/// depends on the text alone.
#[verifier::external_body]
fn to_lowercase(s: &str) -> (r: String)
    ensures
        r@ == lowercase_of(s@),
{
    s.to_lowercase()
}

/// The format that an output path selects: its extension, lowercased, looked
/// up in the table of `format_of_extension`.
pub open spec fn format_for_path(path: Seq<char>) -> Option<TargetFormat> {
    match extension_of(path) {
        Some(ext) => format_of_extension(lowercase_of(ext)),
        None => None,
    }
}

/// The format that the extension of `output_path` selects, if any.
pub fn target_format(output_path: &str) -> (r: Option<TargetFormat>)
    ensures
        r == format_for_path(output_path@),
{
    match path_extension(output_path) {
        Some(ext) => {
            let lower = to_lowercase(ext.as_str());
            target_format_for_extension(lower.as_str())
        },
        None => None,
    }
}

/// Paths whose extensions agree once lowercased select the same format,
/// whatever else they hold.
pub proof fn lemma_format_depends_only_on_extension(p: Seq<char>, q: Seq<char>)
    requires
        extension_of(p).is_some() == extension_of(q).is_some(),
        extension_of(p).is_some() ==> lowercase_of(extension_of(p).unwrap()) == lowercase_of(
            extension_of(q).unwrap(),
        ),
    ensures
        format_for_path(p) == format_for_path(q),
{
}

/// How hard the PNG encoder compresses.
#[derive(Clone, Copy, Debug, PartialEq, Eq, Structural)]
pub enum PngCompression {
    Fast,
    Default,
    Best,
}

/// The PNG compression level that a quality selects: below 40 fast, below 80
/// the default, else the best.
pub open spec fn png_level(quality: int) -> PngCompression {
    if quality < 40 {
        PngCompression::Fast
    } else if quality < 80 {
        PngCompression::Default
    } else {
        PngCompression::Best
    }
}

pub fn png_compression_for_quality(quality: u8) -> (r: PngCompression)
    ensures
        r == png_level(quality as int),
{
    if quality < 40 {
        PngCompression::Fast
    } else if quality < 80 {
        PngCompression::Default
    } else {
        PngCompression::Best
    }
}

/// How the PNG encoder filters rows before compressing them.
#[derive(Clone, Copy, Debug, PartialEq, Eq, Structural)]
pub enum PngFilter {
    /// A filter chosen for each row.
    Adaptive,
}

/// The encoder and its parameters for one output.
#[derive(Clone, Copy, Debug, PartialEq, Eq, Structural)]
pub enum EncodePlan {
    /// JPEG at the quality given, passed through as it is.
    Jpeg { quality: u8 },
    /// PNG at the level and with the row filter given.
    Png { compression: PngCompression, filter: PngFilter },
    /// Lossless WebP; the quality plays no part.
    WebPLossless,
}

/// JPEG takes the quality as it is; PNG takes the level of its band and
/// always adaptive row filters; WebP is lossless and ignores it.
pub open spec fn plan_for(format: TargetFormat, quality: u8) -> EncodePlan {
    match format {
        TargetFormat::Jpeg => EncodePlan::Jpeg { quality },
        TargetFormat::Png => EncodePlan::Png {
            compression: png_level(quality as int),
            filter: PngFilter::Adaptive,
        },
        TargetFormat::WebPLossless => EncodePlan::WebPLossless,
    }
}

/// The plan for a format and a quality.
pub fn plan_for_format(format: TargetFormat, quality: u8) -> (r: EncodePlan)
    ensures
        r == plan_for(format, quality),
{
    match format {
        TargetFormat::Jpeg => EncodePlan::Jpeg { quality },
        TargetFormat::Png => EncodePlan::Png {
            compression: png_compression_for_quality(quality),
            filter: PngFilter::Adaptive,
        },
        TargetFormat::WebPLossless => EncodePlan::WebPLossless,
    }
}

/// The plan for writing to `output_path` at `quality`; none where the path's
/// extension names no supported format.
pub fn encode_plan(output_path: &str, quality: u8) -> (r: Option<EncodePlan>)
    ensures
        r == match format_for_path(output_path@) {
            Some(f) => Some(plan_for(f, quality)),
            None => None,
        },
{
    match target_format(output_path) {
        Some(f) => Some(plan_for_format(f, quality)),
        None => None,
    }
}

} // verus!
