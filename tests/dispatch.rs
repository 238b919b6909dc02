use image_compressor::format::{
    encode_plan, png_compression_for_quality, plan_for_format, target_format,
    target_format_for_extension, EncodePlan, PngCompression, PngFilter, TargetFormat,
};
use image_compressor::status::{has_prefix, status_color, StatusColor};

#[test]
fn extension_table() {
    assert_eq!(target_format_for_extension("jpg"), Some(TargetFormat::Jpeg));
    assert_eq!(target_format_for_extension("jpeg"), Some(TargetFormat::Jpeg));
    assert_eq!(target_format_for_extension("png"), Some(TargetFormat::Png));
    assert_eq!(target_format_for_extension("webp"), Some(TargetFormat::WebPLossless));
    assert_eq!(target_format_for_extension("gif"), None);
    assert_eq!(target_format_for_extension("JPG"), None);
    assert_eq!(target_format_for_extension(""), None);
    assert_eq!(target_format_for_extension("jp"), None);
}

#[test]
fn format_follows_lowercased_extension() {
    assert_eq!(target_format("photo.jpg"), Some(TargetFormat::Jpeg));
    assert_eq!(target_format("photo.JPG"), Some(TargetFormat::Jpeg));
    assert_eq!(target_format("/tmp/a.b/photo.JpEg"), Some(TargetFormat::Jpeg));
    assert_eq!(target_format("archive.tar.PNG"), Some(TargetFormat::Png));
    assert_eq!(target_format("out.WEBP"), Some(TargetFormat::WebPLossless));
    assert_eq!(target_format("photo.gif"), None);
    assert_eq!(target_format("photo"), None);
    assert_eq!(target_format("dir.png/photo"), None);
    assert_eq!(target_format(".png"), None);
}

#[test]
fn other_path_components_do_not_matter() {
    let paths = ["a.png", "/x/y/z.png", "../up.PNG", "with space.Png", "x.jpg.png"];
    for p in paths {
        assert_eq!(target_format(p), Some(TargetFormat::Png));
    }
}

#[test]
fn png_levels_by_quality() {
    assert_eq!(png_compression_for_quality(1), PngCompression::Fast);
    assert_eq!(png_compression_for_quality(10), PngCompression::Fast);
    assert_eq!(png_compression_for_quality(39), PngCompression::Fast);
    assert_eq!(png_compression_for_quality(40), PngCompression::Default);
    assert_eq!(png_compression_for_quality(79), PngCompression::Default);
    assert_eq!(png_compression_for_quality(80), PngCompression::Best);
    assert_eq!(png_compression_for_quality(100), PngCompression::Best);
}

#[test]
fn plans_for_each_format() {
    assert_eq!(plan_for_format(TargetFormat::Jpeg, 50), EncodePlan::Jpeg { quality: 50 });
    assert_eq!(
        plan_for_format(TargetFormat::Png, 50),
        EncodePlan::Png { compression: PngCompression::Default, filter: PngFilter::Adaptive }
    );
    assert_eq!(plan_for_format(TargetFormat::WebPLossless, 3), EncodePlan::WebPLossless);
    assert_eq!(encode_plan("photo.jpg", 50), Some(EncodePlan::Jpeg { quality: 50 }));
    assert_eq!(
        encode_plan("photo.png", 10),
        Some(EncodePlan::Png { compression: PngCompression::Fast, filter: PngFilter::Adaptive })
    );
    assert_eq!(encode_plan("photo.webp", 80), Some(EncodePlan::WebPLossless));
    assert_eq!(encode_plan("photo.webp", 1), Some(EncodePlan::WebPLossless));
    assert_eq!(encode_plan("photo.gif", 80), None);
}

#[test]
fn status_colors_by_prefix() {
    assert_eq!(status_color("Error loading image: gone"), StatusColor::Red);
    assert_eq!(status_color("Error: unsupported format. Use .jpg, .png, or .webp"), StatusColor::Red);
    assert_eq!(status_color("Error"), StatusColor::Red);
    assert_eq!(status_color("Success: saved to out.jpg"), StatusColor::Green);
    assert_eq!(status_color("Ready"), StatusColor::Gray);
    assert_eq!(status_color("Compressing..."), StatusColor::Gray);
    assert_eq!(status_color("error lowercase"), StatusColor::Gray);
    assert_eq!(status_color("Err"), StatusColor::Gray);
    assert_eq!(status_color(""), StatusColor::Gray);
}

#[test]
fn prefix_check() {
    assert!(has_prefix("Success: x", "Success"));
    assert!(has_prefix("abc", ""));
    assert!(!has_prefix("ab", "abc"));
    assert!(!has_prefix("xbc", "abc"));
}
