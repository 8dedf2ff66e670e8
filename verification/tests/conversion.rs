use base64::Engine;
use svg_mcp::errors::ConversionError;
use svg_mcp::SvgConverter;

const SVG_100: &str = "<svg xmlns=\"http://www.w3.org/2000/svg\" width=\"100\" height=\"100\"><rect x=\"10\" y=\"10\" width=\"80\" height=\"80\" fill=\"red\"/><circle cx=\"50\" cy=\"50\" r=\"30\" fill=\"blue\"/></svg>";

fn decode_base64(data: &str) -> Vec<u8> {
    base64::engine::general_purpose::STANDARD
        .decode(data)
        .expect("base64 data must decode")
}

#[test]
fn png_intrinsic_dimensions() {
    let converter = SvgConverter::new();
    let result = converter
        .convert_svg_to_png(SVG_100, None, None, true)
        .unwrap();
    assert_eq!(result.mime_type, "image/png");
    let bytes = decode_base64(result.base64_data.as_ref().unwrap());
    let img = image::load_from_memory(&bytes).unwrap();
    assert_eq!(img.width(), 100);
    assert_eq!(img.height(), 100);
}

#[test]
fn png_requested_dimensions_stretch() {
    let converter = SvgConverter::new();
    let result = converter
        .convert_svg_to_png(SVG_100, Some(50), Some(200), true)
        .unwrap();
    let bytes = decode_base64(result.base64_data.as_ref().unwrap());
    assert_eq!(
        image::guess_format(&bytes).unwrap(),
        image::ImageFormat::Png
    );
    let img = image::load_from_memory(&bytes).unwrap();
    assert_eq!(img.width(), 50);
    assert_eq!(img.height(), 200);
}

#[test]
fn png_single_axis_defaults_to_intrinsic() {
    let converter = SvgConverter::new();
    let result = converter
        .convert_svg_to_png(SVG_100, Some(50), None, true)
        .unwrap();
    let bytes = decode_base64(result.base64_data.as_ref().unwrap());
    let img = image::load_from_memory(&bytes).unwrap();
    assert_eq!(img.width(), 50);
    assert_eq!(img.height(), 100);

    let result = converter
        .convert_svg_to_png(SVG_100, None, Some(70), true)
        .unwrap();
    let bytes = decode_base64(result.base64_data.as_ref().unwrap());
    let img = image::load_from_memory(&bytes).unwrap();
    assert_eq!(img.width(), 100);
    assert_eq!(img.height(), 70);
}

#[test]
fn jpeg_dimensions_and_format() {
    let converter = SvgConverter::new();
    let result = converter
        .convert_svg_to_jpeg(SVG_100, Some(64), Some(32), 85, true)
        .unwrap();
    assert_eq!(result.mime_type, "image/jpeg");
    let bytes = decode_base64(result.base64_data.as_ref().unwrap());
    assert_eq!(
        image::guess_format(&bytes).unwrap(),
        image::ImageFormat::Jpeg
    );
    let img = image::load_from_memory(&bytes).unwrap();
    assert_eq!(img.width(), 64);
    assert_eq!(img.height(), 32);
}

#[test]
fn png_file_mode_persists_a_readable_file() {
    let converter = SvgConverter::new();
    let result = converter
        .convert_svg_to_png(SVG_100, None, None, false)
        .unwrap();
    assert!(result.base64_data.is_none());
    let path = result.file_path.unwrap();
    assert!(path.ends_with(".png"));
    let img = image::open(&path).unwrap();
    assert_eq!(img.width(), 100);
    assert_eq!(img.height(), 100);
}

#[test]
fn jpeg_file_mode_persists_a_readable_file() {
    let converter = SvgConverter::new();
    let result = converter
        .convert_svg_to_jpeg(SVG_100, Some(40), Some(20), 90, false)
        .unwrap();
    assert!(result.base64_data.is_none());
    let path = result.file_path.unwrap();
    assert!(path.ends_with(".jpg"));
    let img = image::open(&path).unwrap();
    assert_eq!(img.width(), 40);
    assert_eq!(img.height(), 20);
}

#[test]
fn exactly_one_output_field_is_set() {
    let converter = SvgConverter::new();
    let inline = converter
        .convert_svg_to_png(SVG_100, None, None, true)
        .unwrap();
    assert!(inline.base64_data.is_some() && inline.file_path.is_none());
    assert_eq!(inline.mime_type, "image/png");
    let on_disk = converter
        .convert_svg_to_jpeg(SVG_100, None, None, 85, false)
        .unwrap();
    assert!(on_disk.file_path.is_some() && on_disk.base64_data.is_none());
    assert_eq!(on_disk.mime_type, "image/jpeg");
}

#[test]
fn jpeg_quality_extremes_differ_in_size() {
    let converter = SvgConverter::new();
    let low = converter
        .convert_svg_to_jpeg(SVG_100, None, None, 1, true)
        .unwrap();
    let high = converter
        .convert_svg_to_jpeg(SVG_100, None, None, 100, true)
        .unwrap();
    let low_bytes = decode_base64(low.base64_data.as_ref().unwrap());
    let high_bytes = decode_base64(high.base64_data.as_ref().unwrap());
    assert_ne!(low_bytes.len(), high_bytes.len());
}

#[test]
fn malformed_svg_is_a_parse_failure() {
    let converter = SvgConverter::new();
    let result = converter.convert_svg_to_png("<svg><rect", None, None, true);
    assert!(matches!(result, Err(ConversionError::ParseFailure(_))));
    let result = converter.convert_svg_to_jpeg("not svg at all", None, None, 85, true);
    assert!(matches!(result, Err(ConversionError::ParseFailure(_))));
}

#[test]
fn zero_dimension_is_rejected() {
    let converter = SvgConverter::new();
    let result = converter.convert_svg_to_png(SVG_100, Some(0), Some(50), true);
    assert!(matches!(result, Err(ConversionError::InvalidDimensions)));
    let result = converter.convert_svg_to_jpeg(SVG_100, Some(10), Some(0), 85, false);
    assert!(matches!(result, Err(ConversionError::InvalidDimensions)));
}

#[test]
fn jpeg_quality_above_100_is_rejected() {
    let converter = SvgConverter::new();
    let result = converter.convert_svg_to_jpeg(SVG_100, None, None, 101, true);
    assert!(matches!(result, Err(ConversionError::InvalidParameter(_))));
    let result = converter.convert_svg_to_jpeg(SVG_100, None, None, 255, false);
    assert!(matches!(result, Err(ConversionError::InvalidParameter(_))));
}

#[test]
fn parse_failure_takes_precedence_over_bad_quality() {
    let converter = SvgConverter::new();
    let result = converter.convert_svg_to_jpeg("<svg><rect", None, None, 200, true);
    assert!(matches!(result, Err(ConversionError::ParseFailure(_))));
}

#[test]
fn zero_dimension_takes_precedence_over_bad_quality() {
    let converter = SvgConverter::new();
    let result = converter.convert_svg_to_jpeg(SVG_100, Some(0), None, 200, true);
    assert!(matches!(result, Err(ConversionError::InvalidDimensions)));
}

#[test]
fn fractional_intrinsic_size_is_rounded() {
    let svg = "<svg xmlns=\"http://www.w3.org/2000/svg\" width=\"99.5\" height=\"49.5\"><rect width=\"99.5\" height=\"49.5\" fill=\"black\"/></svg>";
    let converter = SvgConverter::new();
    let result = converter.convert_svg_to_png(svg, None, None, true).unwrap();
    let bytes = decode_base64(result.base64_data.as_ref().unwrap());
    let img = image::load_from_memory(&bytes).unwrap();
    assert_eq!(img.width(), 100);
    assert_eq!(img.height(), 50);
}

#[test]
fn external_image_references_are_not_resolved() {
    let svg = "<svg xmlns=\"http://www.w3.org/2000/svg\" xmlns:xlink=\"http://www.w3.org/1999/xlink\" width=\"20\" height=\"20\"><image xlink:href=\"no_such_file.png\" width=\"20\" height=\"20\"/></svg>";
    let converter = SvgConverter::new();
    let result = converter.convert_svg_to_png(svg, None, None, true).unwrap();
    let bytes = decode_base64(result.base64_data.as_ref().unwrap());
    let img = image::load_from_memory(&bytes).unwrap();
    assert_eq!(img.width(), 20);
    assert_eq!(img.height(), 20);
}

#[test]
fn jpeg_quality_bounds_are_accepted() {
    let converter = SvgConverter::new();
    assert!(converter
        .convert_svg_to_jpeg(SVG_100, None, None, 0, true)
        .is_ok());
    assert!(converter
        .convert_svg_to_jpeg(SVG_100, None, None, 100, true)
        .is_ok());
}

#[test]
fn empty_markup_is_a_parse_failure() {
    let converter = SvgConverter::new();
    let result = converter.convert_svg_to_png("", None, None, true);
    assert!(matches!(result, Err(ConversionError::ParseFailure(_))));
}

#[test]
fn base64_and_file_modes_deliver_the_same_png() {
    let converter = SvgConverter::new();
    let inline = converter
        .convert_svg_to_png(SVG_100, Some(30), Some(30), true)
        .unwrap();
    let inline_bytes = decode_base64(inline.base64_data.as_ref().unwrap());
    let on_disk = converter
        .convert_svg_to_png(SVG_100, Some(30), Some(30), false)
        .unwrap();
    let disk_img = image::open(on_disk.file_path.as_ref().unwrap()).unwrap();
    let inline_img = image::load_from_memory(&inline_bytes).unwrap();
    assert_eq!(disk_img.width(), inline_img.width());
    assert_eq!(disk_img.height(), inline_img.height());
    assert_eq!(disk_img.to_rgba8().into_raw(), inline_img.to_rgba8().into_raw());
}

#[test]
fn rgba_to_rgb_drops_every_fourth_byte() {
    assert_eq!(
        svg_mcp::pixels::rgba_to_rgb(&vec![1, 2, 3, 4, 5, 6, 7, 8]),
        vec![1, 2, 3, 5, 6, 7]
    );
    assert_eq!(svg_mcp::pixels::rgba_to_rgb(&Vec::new()), Vec::<u8>::new());
    assert_eq!(svg_mcp::pixels::rgba_to_rgb(&vec![9, 8, 7, 6, 5]), vec![9, 8, 7]);
}
