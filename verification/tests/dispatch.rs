use base64::Engine;
use svg_mcp::dispatch::{ArgBag, ArgValue, FieldKind};
use svg_mcp::errors::ErrorKind;
use svg_mcp::jsonfmt;
use svg_mcp::packaging::ConversionResult;
use svg_mcp::SvgConverter;

const SVG_100: &str = "<svg xmlns=\"http://www.w3.org/2000/svg\" width=\"100\" height=\"100\"><rect width=\"100\" height=\"100\" fill=\"green\"/></svg>";

fn bag(entries: Vec<(&str, ArgValue)>) -> ArgBag {
    ArgBag {
        entries: entries
            .into_iter()
            .map(|(k, v)| (k.to_string(), v))
            .collect(),
    }
}

fn svg_arg() -> (&'static str, ArgValue) {
    ("svg_content", ArgValue::Text(SVG_100.to_string()))
}

#[test]
fn unknown_tool_is_method_not_found() {
    let converter = SvgConverter::new();
    let args = bag(vec![svg_arg()]);
    let err = converter.call_tool("svg_to_gif", Some(&args)).unwrap_err();
    assert_eq!(err.kind, ErrorKind::MethodNotFound);
    assert_eq!(err.message, "Unknown tool: svg_to_gif");
}

#[test]
fn missing_argument_bag_is_invalid_params() {
    let converter = SvgConverter::new();
    let err = converter.call_tool("svg_to_png", None).unwrap_err();
    assert_eq!(err.kind, ErrorKind::InvalidParams);
    assert_eq!(err.message, "Missing arguments");
    let err = converter.call_tool("svg_to_jpeg", None).unwrap_err();
    assert_eq!(err.kind, ErrorKind::InvalidParams);
    assert_eq!(err.message, "Missing arguments");
}

#[test]
fn missing_svg_content_is_invalid_params() {
    let converter = SvgConverter::new();
    let args = bag(vec![("width", ArgValue::UInt(10))]);
    let err = converter.call_tool("svg_to_png", Some(&args)).unwrap_err();
    assert_eq!(err.kind, ErrorKind::InvalidParams);
    assert_eq!(err.message, "Missing svg_content");
}

#[test]
fn wrong_typed_svg_content_is_invalid_params() {
    let converter = SvgConverter::new();
    let args = bag(vec![("svg_content", ArgValue::UInt(7))]);
    let err = converter.call_tool("svg_to_png", Some(&args)).unwrap_err();
    assert_eq!(err.kind, ErrorKind::InvalidParams);
}

#[test]
fn oversized_width_is_invalid_params() {
    let converter = SvgConverter::new();
    let args = bag(vec![svg_arg(), ("width", ArgValue::UInt(u64::from(u32::MAX) + 1))]);
    let err = converter.call_tool("svg_to_png", Some(&args)).unwrap_err();
    assert_eq!(err.kind, ErrorKind::InvalidParams);
    assert_eq!(err.message, "width does not fit in a pixel count");
}

#[test]
fn oversized_quality_is_invalid_params() {
    let converter = SvgConverter::new();
    let args = bag(vec![svg_arg(), ("quality", ArgValue::UInt(300))]);
    let err = converter.call_tool("svg_to_jpeg", Some(&args)).unwrap_err();
    assert_eq!(err.kind, ErrorKind::InvalidParams);
    assert_eq!(err.message, "quality does not fit in a byte");
}

#[test]
fn quality_between_101_and_255_fails_in_the_service() {
    let converter = SvgConverter::new();
    let args = bag(vec![svg_arg(), ("quality", ArgValue::UInt(200))]);
    let err = converter.call_tool("svg_to_jpeg", Some(&args)).unwrap_err();
    assert_eq!(err.kind, ErrorKind::InternalError);
    assert_eq!(
        err.message,
        "JPEG conversion failed: quality must be between 0 and 100"
    );
}

#[test]
fn zero_dimension_is_wrapped_with_its_cause() {
    let converter = SvgConverter::new();
    let args = bag(vec![svg_arg(), ("width", ArgValue::UInt(0))]);
    let err = converter.call_tool("svg_to_png", Some(&args)).unwrap_err();
    assert_eq!(err.kind, ErrorKind::InternalError);
    assert_eq!(
        err.message,
        "PNG conversion failed: invalid output dimensions"
    );
}

#[test]
fn malformed_svg_is_wrapped_as_internal_error() {
    let converter = SvgConverter::new();
    let args = bag(vec![("svg_content", ArgValue::Text("<svg><rect".to_string()))]);
    let err = converter.call_tool("svg_to_png", Some(&args)).unwrap_err();
    assert_eq!(err.kind, ErrorKind::InternalError);
    assert!(err.message.starts_with("PNG conversion failed: "));
}

#[test]
fn png_call_returns_serialized_result() {
    let converter = SvgConverter::new();
    let args = bag(vec![
        svg_arg(),
        ("width", ArgValue::UInt(50)),
        ("height", ArgValue::UInt(200)),
        ("return_base64", ArgValue::Flag(true)),
    ]);
    let resp = converter.call_tool("svg_to_png", Some(&args)).unwrap();
    assert!(!resp.is_error);
    let value: serde_json::Value = serde_json::from_str(&resp.content).unwrap();
    assert_eq!(value["mime_type"], "image/png");
    assert!(value.get("file_path").is_none());
    let data = value["base64_data"].as_str().unwrap();
    let bytes = base64::engine::general_purpose::STANDARD
        .decode(data)
        .unwrap();
    let img = image::load_from_memory(&bytes).unwrap();
    assert_eq!(img.width(), 50);
    assert_eq!(img.height(), 200);
}

#[test]
fn jpeg_call_in_file_mode_returns_a_path() {
    let converter = SvgConverter::new();
    let args = bag(vec![svg_arg(), ("quality", ArgValue::UInt(90))]);
    let resp = converter.call_tool("svg_to_jpeg", Some(&args)).unwrap();
    assert!(!resp.is_error);
    let value: serde_json::Value = serde_json::from_str(&resp.content).unwrap();
    assert_eq!(value["mime_type"], "image/jpeg");
    assert!(value.get("base64_data").is_none());
    let path = value["file_path"].as_str().unwrap();
    assert!(path.ends_with(".jpg"));
    let img = image::open(path).unwrap();
    assert_eq!(img.width(), 100);
    assert_eq!(img.height(), 100);
}

#[test]
fn wrong_typed_optional_field_counts_as_absent() {
    let converter = SvgConverter::new();
    let args = bag(vec![
        svg_arg(),
        ("width", ArgValue::Text("50".to_string())),
        ("return_base64", ArgValue::Flag(true)),
    ]);
    let resp = converter.call_tool("svg_to_png", Some(&args)).unwrap();
    let value: serde_json::Value = serde_json::from_str(&resp.content).unwrap();
    let data = value["base64_data"].as_str().unwrap();
    let bytes = base64::engine::general_purpose::STANDARD
        .decode(data)
        .unwrap();
    let img = image::load_from_memory(&bytes).unwrap();
    assert_eq!(img.width(), 100);
    assert_eq!(img.height(), 100);
}

#[test]
fn duplicate_keys_first_entry_wins() {
    let converter = SvgConverter::new();
    let args = bag(vec![
        svg_arg(),
        ("width", ArgValue::UInt(40)),
        ("width", ArgValue::UInt(60)),
        ("return_base64", ArgValue::Flag(true)),
    ]);
    let resp = converter.call_tool("svg_to_png", Some(&args)).unwrap();
    let value: serde_json::Value = serde_json::from_str(&resp.content).unwrap();
    let data = value["base64_data"].as_str().unwrap();
    let bytes = base64::engine::general_purpose::STANDARD
        .decode(data)
        .unwrap();
    let img = image::load_from_memory(&bytes).unwrap();
    assert_eq!(img.width(), 40);
}

#[test]
fn list_tools_describes_both_tools() {
    let converter = SvgConverter::new();
    let tools = converter.list_tools();
    assert_eq!(tools.len(), 2);
    assert_eq!(tools[0].name, "svg_to_png");
    assert_eq!(tools[0].description, "Convert SVG text to PNG image");
    assert_eq!(tools[0].fields.len(), 4);
    assert_eq!(tools[0].fields[0].name, "svg_content");
    assert_eq!(tools[0].fields[0].kind, FieldKind::Text);
    assert!(tools[0].fields[0].required);
    assert!(!tools[0].fields[1].required);
    assert_eq!(tools[1].name, "svg_to_jpeg");
    assert_eq!(tools[1].description, "Convert SVG text to JPEG image");
    assert_eq!(tools[1].fields.len(), 5);
    assert_eq!(tools[1].fields[3].name, "quality");
    assert_eq!(tools[1].fields[3].kind, FieldKind::UInt);
    assert_eq!(tools[1].fields[4].name, "return_base64");
    assert_eq!(tools[1].fields[4].kind, FieldKind::Flag);
}

#[test]
fn json_escape_handles_special_characters() {
    assert_eq!(
        jsonfmt::json_escape("a\"b\\c\nd\te\r\u{8}\u{c}\u{1}f"),
        "a\\\"b\\\\c\\nd\\te\\r\\b\\f\\u0001f"
    );
    assert_eq!(jsonfmt::json_escape("plain"), "plain");
    assert_eq!(jsonfmt::json_escape(""), "");
}

#[test]
fn result_serialization_matches_serde_conventions() {
    let res = ConversionResult {
        file_path: Some("/tmp/x\"y.png".to_string()),
        base64_data: None,
        mime_type: "image/png".to_string(),
    };
    assert_eq!(
        jsonfmt::result_to_json(&res),
        "{\"file_path\":\"/tmp/x\\\"y.png\",\"mime_type\":\"image/png\"}"
    );
    let res = ConversionResult {
        file_path: None,
        base64_data: Some("QUJD".to_string()),
        mime_type: "image/jpeg".to_string(),
    };
    let text = jsonfmt::result_to_json(&res);
    assert_eq!(
        text,
        "{\"base64_data\":\"QUJD\",\"mime_type\":\"image/jpeg\"}"
    );
    let value: serde_json::Value = serde_json::from_str(&text).unwrap();
    assert_eq!(value["base64_data"], "QUJD");
    assert_eq!(value["mime_type"], "image/jpeg");
}
