//! The tool dispatcher: validates an untyped argument bag against a named
//! tool's schema, invokes the conversion service, and maps success or failure
//! into a uniform response envelope. A separate read-only operation lists the
//! static tool descriptors for discovery.
use vstd::prelude::*;

use vstd::string::StringExecFns;

use crate::backend::base64_of;
use crate::backend::seq_ends_with;
use crate::backend::seq_starts_with;
use crate::backend::svg_intrinsic;
use crate::backend::svg_parse_error;
use crate::convert::dims_ok;
use crate::convert::jpeg_output;
use crate::convert::png_output;
use crate::convert::SvgConverter;
use crate::errors::DispatchError;
use crate::errors::ErrorKind;
use crate::jsonfmt;
use crate::jsonfmt::json_of;

verus! {

/// One value of an untyped argument bag, as a caller's wire format delivers
/// it. `Other` stands for any value that is neither text, a non-negative
/// integer, nor a boolean (null, a fraction, a negative number, an array, a
/// nested object); the dispatcher treats such a value as absent, as it does a
/// value of the wrong type.
pub enum ArgValue {
    Text(String),
    UInt(u64),
    Flag(bool),
    Other,
}

/// An untyped key-value argument bag. Keys are unique in a well-formed bag;
/// when a key repeats, the first entry wins.
pub struct ArgBag {
    pub entries: Vec<(String, ArgValue)>,
}

/// The first value stored under `key`, if any.
pub open spec fn spec_lookup(entries: Seq<(String, ArgValue)>, key: Seq<char>) -> Option<ArgValue>
    decreases entries.len(),
{
    if entries.len() == 0 {
        None
    } else if entries[0].0@ == key {
        Some(entries[0].1)
    } else {
        spec_lookup(entries.drop_first(), key)
    }
}

/// The text stored under `key`: a value of any other shape counts as absent.
pub open spec fn text_arg(entries: Seq<(String, ArgValue)>, key: Seq<char>) -> Option<Seq<char>> {
    match spec_lookup(entries, key) {
        Some(ArgValue::Text(s)) => Some(s@),
        _ => None,
    }
}

/// A dimension stored under `key`: absent or wrongly shaped counts as
/// unspecified, a non-negative integer above `u32::MAX` is rejected.
pub open spec fn dim_arg(entries: Seq<(String, ArgValue)>, key: Seq<char>) -> Result<
    Option<u32>,
    (),
> {
    match spec_lookup(entries, key) {
        Some(ArgValue::UInt(v)) => if v <= u32::MAX as u64 {
            Ok(Some(v as u32))
        } else {
            Err(())
        },
        _ => Ok(None),
    }
}

/// The JPEG quality argument: absent or wrongly shaped counts as unspecified,
/// a non-negative integer above 255 is rejected at this boundary (values
/// 101..=255 pass through and are rejected by the conversion service).
pub open spec fn quality_arg(entries: Seq<(String, ArgValue)>) -> Result<Option<u8>, ()> {
    match spec_lookup(entries, "quality"@) {
        Some(ArgValue::UInt(v)) => if v <= 255 {
            Ok(Some(v as u8))
        } else {
            Err(())
        },
        _ => Ok(None),
    }
}

/// The boolean stored under `key`: a value of any other shape counts as
/// absent.
pub open spec fn flag_arg(entries: Seq<(String, ArgValue)>, key: Seq<char>) -> Option<bool> {
    match spec_lookup(entries, key) {
        Some(ArgValue::Flag(b)) => Some(b),
        _ => None,
    }
}

/// The validated parameters of the `svg_to_png` tool.
pub struct SvgToPngRequest {
    pub svg_content: String,
    pub width: Option<u32>,
    pub height: Option<u32>,
    /// Whether to return base64 data instead of a file path (default: false).
    pub return_base64: Option<bool>,
}

/// The validated parameters of the `svg_to_jpeg` tool.
pub struct SvgToJpegRequest {
    pub svg_content: String,
    pub width: Option<u32>,
    pub height: Option<u32>,
    /// JPEG quality, 0 to 100 (default: 85).
    pub quality: Option<u8>,
    /// Whether to return base64 data instead of a file path (default: false).
    pub return_base64: Option<bool>,
}

/// The bag holds everything `svg_to_png` requires: text under `svg_content`,
/// and dimensions, where given, that fit in a pixel count.
pub open spec fn png_args_valid(entries: Seq<(String, ArgValue)>) -> bool {
    &&& text_arg(entries, "svg_content"@) is Some
    &&& dim_arg(entries, "width"@) is Ok
    &&& dim_arg(entries, "height"@) is Ok
}

/// The bag holds everything `svg_to_jpeg` requires: the `svg_to_png` fields
/// plus a quality, where given, that fits in a byte.
pub open spec fn jpeg_args_valid(entries: Seq<(String, ArgValue)>) -> bool {
    &&& png_args_valid(entries)
    &&& quality_arg(entries) is Ok
}

/// The SVG markup of a validated bag.
pub open spec fn arg_svg(entries: Seq<(String, ArgValue)>) -> Seq<char> {
    text_arg(entries, "svg_content"@)->Some_0
}

/// The requested width of a validated bag.
pub open spec fn arg_width(entries: Seq<(String, ArgValue)>) -> Option<u32> {
    dim_arg(entries, "width"@)->Ok_0
}

/// The requested height of a validated bag.
pub open spec fn arg_height(entries: Seq<(String, ArgValue)>) -> Option<u32> {
    dim_arg(entries, "height"@)->Ok_0
}

/// The delivery mode of a bag: base64 when asked for, a file path otherwise.
pub open spec fn arg_rb(entries: Seq<(String, ArgValue)>) -> bool {
    match flag_arg(entries, "return_base64"@) {
        Some(b) => b,
        None => false,
    }
}

/// The JPEG quality of a validated bag, defaulting to 85.
pub open spec fn arg_quality(entries: Seq<(String, ArgValue)>) -> u8 {
    match quality_arg(entries)->Ok_0 {
        Some(q) => q,
        None => 85,
    }
}

/// The dispatcher knows exactly two tools.
pub open spec fn known_tool(name: Seq<char>) -> bool {
    name == "svg_to_png"@ || name == "svg_to_jpeg"@
}

/// The response envelope of a successful tool call: the serialized result
/// record and a success flag.
#[derive(Debug)]
pub struct ToolResponse {
    pub content: String,
    pub is_error: bool,
}

/// The shape of one argument field: text, a non-negative integer, or a
/// boolean.
#[derive(Debug, Clone, Copy, PartialEq, Eq, Structural)]
pub enum FieldKind {
    Text,
    UInt,
    Flag,
}

/// One field of a tool's argument schema.
#[derive(Debug)]
pub struct FieldDesc {
    pub name: String,
    pub kind: FieldKind,
    pub required: bool,
    pub doc: String,
}

/// A static description of one tool: its name, what it does, and the
/// argument shape it accepts. Defined once, never mutated, enumerated on
/// discovery requests.
#[derive(Debug)]
pub struct ToolDescriptor {
    pub name: String,
    pub description: String,
    pub fields: Vec<FieldDesc>,
}

/// `f` describes a field with this name, shape, requirement and doc text.
pub open spec fn field_is(
    f: FieldDesc,
    name: Seq<char>,
    kind: FieldKind,
    required: bool,
    doc: Seq<char>,
) -> bool {
    &&& f.name@ == name
    &&& f.kind == kind
    &&& f.required == required
    &&& f.doc@ == doc
}

fn field(name: &str, kind: FieldKind, required: bool, doc: &str) -> (r: FieldDesc)
    ensures
        field_is(r, name@, kind, required, doc@),
{
    FieldDesc { name: name.to_owned(), kind, required, doc: doc.to_owned() }
}

fn str_equals(a: &str, b: &str) -> (r: bool)
    ensures
        r == (a@ == b@),
{
    let a_owned = a.to_owned();
    let b_owned = b.to_owned();
    a_owned == b_owned
}

fn invalid_params(msg: &str) -> (r: DispatchError)
    ensures
        r.kind is InvalidParams,
        r.message@ == msg@,
{
    DispatchError { kind: ErrorKind::InvalidParams, message: msg.to_owned() }
}

/// Looks a key up in the bag; the first entry under the key wins.
fn lookup<'a>(bag: &'a ArgBag, key: &str) -> (r: Option<&'a ArgValue>)
    ensures
        match r {
            Some(v) => spec_lookup(bag.entries@, key@) == Some(*v),
            None => spec_lookup(bag.entries@, key@) is None,
        },
{
    let key_owned = key.to_owned();
    let n = bag.entries.len();
    let mut i: usize = 0;
    proof {
        assert(bag.entries@.skip(0) =~= bag.entries@);
    }
    while i < n
        invariant
            i <= n,
            n == bag.entries@.len(),
            key_owned@ == key@,
            spec_lookup(bag.entries@.skip(i as int), key@) == spec_lookup(bag.entries@, key@),
        decreases n - i,
    {
        proof {
            assert(bag.entries@.skip(i as int)[0] == bag.entries@[i as int]);
            assert(bag.entries@.skip(i as int).drop_first() =~= bag.entries@.skip(i + 1));
        }
        if bag.entries[i].0 == key_owned {
            return Some(&bag.entries[i].1);
        }
        i = i + 1;
    }
    proof {
        assert(bag.entries@.skip(n as int) =~= Seq::<(String, ArgValue)>::empty());
    }
    None
}

fn get_text(bag: &ArgBag, key: &str) -> (r: Option<String>)
    ensures
        jsonfmt::opt_view(r) == text_arg(bag.entries@, key@),
{
    match lookup(bag, key) {
        Some(ArgValue::Text(s)) => Some(s.clone()),
        _ => None,
    }
}

fn get_uint(bag: &ArgBag, key: &str) -> (r: Option<u64>)
    ensures
        match spec_lookup(bag.entries@, key@) {
            Some(ArgValue::UInt(v)) => r == Some(v),
            _ => r is None,
        },
{
    match lookup(bag, key) {
        Some(ArgValue::UInt(v)) => Some(*v),
        _ => None,
    }
}

fn get_flag(bag: &ArgBag, key: &str) -> (r: Option<bool>)
    ensures
        r == flag_arg(bag.entries@, key@),
{
    match lookup(bag, key) {
        Some(ArgValue::Flag(b)) => Some(*b),
        _ => None,
    }
}

/// Validates an argument bag against the `svg_to_png` schema. The error
/// message names the offending field.
pub fn parse_png_request(bag: &ArgBag) -> (r: Result<SvgToPngRequest, DispatchError>)
    ensures
        r is Ok <==> png_args_valid(bag.entries@),
        r matches Ok(req) ==> {
            &&& req.svg_content@ == arg_svg(bag.entries@)
            &&& req.width == arg_width(bag.entries@)
            &&& req.height == arg_height(bag.entries@)
            &&& req.return_base64 == flag_arg(bag.entries@, "return_base64"@)
        },
        r matches Err(e) ==> e.kind is InvalidParams,
        text_arg(bag.entries@, "svg_content"@) is None ==> (r matches Err(e) && e.message@
            == "Missing svg_content"@),
        (text_arg(bag.entries@, "svg_content"@) is Some && dim_arg(bag.entries@, "width"@) is Err)
            ==> (r matches Err(e) && e.message@ == "width does not fit in a pixel count"@),
        (text_arg(bag.entries@, "svg_content"@) is Some && dim_arg(bag.entries@, "width"@) is Ok
            && dim_arg(bag.entries@, "height"@) is Err) ==> (r matches Err(e) && e.message@
            == "height does not fit in a pixel count"@),
{
    let svg_content = match get_text(bag, "svg_content") {
        Some(s) => s,
        None => {
            return Err(invalid_params("Missing svg_content"));
        },
    };
    let width = match get_uint(bag, "width") {
        Some(v) => if v <= u32::MAX as u64 {
            Some(v as u32)
        } else {
            return Err(invalid_params("width does not fit in a pixel count"));
        },
        None => None,
    };
    let height = match get_uint(bag, "height") {
        Some(v) => if v <= u32::MAX as u64 {
            Some(v as u32)
        } else {
            return Err(invalid_params("height does not fit in a pixel count"));
        },
        None => None,
    };
    let return_base64 = get_flag(bag, "return_base64");
    Ok(SvgToPngRequest { svg_content, width, height, return_base64 })
}

/// Validates an argument bag against the `svg_to_jpeg` schema. The error
/// message names the offending field.
pub fn parse_jpeg_request(bag: &ArgBag) -> (r: Result<SvgToJpegRequest, DispatchError>)
    ensures
        r is Ok <==> jpeg_args_valid(bag.entries@),
        r matches Ok(req) ==> {
            &&& req.svg_content@ == arg_svg(bag.entries@)
            &&& req.width == arg_width(bag.entries@)
            &&& req.height == arg_height(bag.entries@)
            &&& Ok::<Option<u8>, ()>(req.quality) == quality_arg(bag.entries@)
            &&& req.return_base64 == flag_arg(bag.entries@, "return_base64"@)
        },
        r matches Err(e) ==> e.kind is InvalidParams,
        text_arg(bag.entries@, "svg_content"@) is None ==> (r matches Err(e) && e.message@
            == "Missing svg_content"@),
        (png_args_valid(bag.entries@) && quality_arg(bag.entries@) is Err) ==> (r matches Err(e)
            && e.message@ == "quality does not fit in a byte"@),
{
    let base = match parse_png_request(bag) {
        Ok(req) => req,
        Err(e) => {
            return Err(e);
        },
    };
    let quality = match get_uint(bag, "quality") {
        Some(v) => if v <= 255 {
            Some(v as u8)
        } else {
            return Err(invalid_params("quality does not fit in a byte"));
        },
        None => None,
    };
    Ok(
        SvgToJpegRequest {
            svg_content: base.svg_content,
            width: base.width,
            height: base.height,
            quality,
            return_base64: base.return_base64,
        },
    )
}

impl SvgConverter {
    /// Dispatches one tool call: looks the tool up by name, validates the
    /// argument bag against its schema, invokes the conversion, and wraps the
    /// outcome. An unknown name is `MethodNotFound`; a missing bag or an
    /// invalid field is `InvalidParams`; a conversion failure is wrapped as
    /// `InternalError` with its cause. No call ever panics.
    pub fn call_tool(&self, name: &str, arguments: Option<&ArgBag>) -> (r: Result<
        ToolResponse,
        DispatchError,
    >)
        ensures
            (r matches Err(e) && e.kind is MethodNotFound) <==> !known_tool(name@),
            known_tool(name@) ==> ((r matches Err(e) && e.kind is InvalidParams) <==> (
            arguments is None || (name@ == "svg_to_png"@ && !png_args_valid(
                arguments->Some_0.entries@,
            )) || (name@ == "svg_to_jpeg"@ && !jpeg_args_valid(arguments->Some_0.entries@)))),
            r matches Ok(resp) ==> known_tool(name@) && arguments is Some && resp.is_error
                == false,
            arguments matches Some(bag) ==> (r matches Ok(resp) ==> (name@ == "svg_to_png"@ ==> {
                let entries = bag.entries@;
                &&& dims_ok(arg_svg(entries), arg_width(entries), arg_height(entries))
                &&& arg_rb(entries) ==> resp.content@ == json_of(
                    None,
                    Some(base64_of(png_output(arg_svg(entries), arg_width(entries), arg_height(entries)))),
                    "image/png"@,
                )
                &&& !arg_rb(entries) ==> exists|p: Seq<char>|
                    resp.content@ == json_of(Some(p), None, "image/png"@) && seq_ends_with(
                        p,
                        ".png"@,
                    )
            })),
            arguments matches Some(bag) ==> (r matches Ok(resp) ==> (name@ == "svg_to_jpeg"@ ==> {
                let entries = bag.entries@;
                &&& dims_ok(arg_svg(entries), arg_width(entries), arg_height(entries))
                &&& arg_quality(entries) <= 100
                &&& arg_rb(entries) ==> resp.content@ == json_of(
                    None,
                    Some(base64_of(jpeg_output(arg_svg(entries), arg_width(entries), arg_height(entries), arg_quality(entries)))),
                    "image/jpeg"@,
                )
                &&& !arg_rb(entries) ==> exists|p: Seq<char>|
                    resp.content@ == json_of(Some(p), None, "image/jpeg"@) && seq_ends_with(
                        p,
                        ".jpg"@,
                    )
            })),
            arguments matches Some(bag) ==> (name@ == "svg_to_png"@ && png_args_valid(bag.entries@)
                && svg_intrinsic(arg_svg(bag.entries@)) is None ==> (r matches Err(e)
                && e.kind is InternalError && e.message@ == "PNG conversion failed: "@
                + svg_parse_error(arg_svg(bag.entries@)))),
            arguments matches Some(bag) ==> (name@ == "svg_to_jpeg"@ && jpeg_args_valid(
                bag.entries@,
            ) && svg_intrinsic(arg_svg(bag.entries@)) is None ==> (r matches Err(e)
                && e.kind is InternalError)),
            arguments matches Some(bag) ==> (name@ == "svg_to_jpeg"@ && jpeg_args_valid(
                bag.entries@,
            ) && svg_intrinsic(arg_svg(bag.entries@)) is None ==> (r matches Err(e) && e.message@
                == "JPEG conversion failed: "@ + svg_parse_error(arg_svg(bag.entries@)))),
            arguments matches Some(bag) ==> (name@ == "svg_to_jpeg"@ && jpeg_args_valid(
                bag.entries@,
            ) && dims_ok(arg_svg(bag.entries@), arg_width(bag.entries@), arg_height(bag.entries@))
                && arg_quality(bag.entries@) > 100 ==> (r matches Err(e)
                && e.kind is InternalError && e.message@ == "JPEG conversion failed: "@
                + "quality must be between 0 and 100"@)),
            arguments matches Some(bag) ==> (name@ == "svg_to_png"@ && png_args_valid(bag.entries@)
                && svg_intrinsic(arg_svg(bag.entries@)) is Some && !dims_ok(
                arg_svg(bag.entries@),
                arg_width(bag.entries@),
                arg_height(bag.entries@),
            ) ==> (r matches Err(e) && e.kind is InternalError && e.message@
                == "PNG conversion failed: "@ + "invalid output dimensions"@)),
            arguments matches Some(bag) ==> (name@ == "svg_to_jpeg"@ && jpeg_args_valid(
                bag.entries@,
            ) && svg_intrinsic(arg_svg(bag.entries@)) is Some && !dims_ok(
                arg_svg(bag.entries@),
                arg_width(bag.entries@),
                arg_height(bag.entries@),
            ) ==> (r matches Err(e) && e.kind is InternalError && e.message@
                == "JPEG conversion failed: "@ + "invalid output dimensions"@)),
            r matches Err(e) ==> (e.kind is InternalError ==> (name@ == "svg_to_png"@
                ==> seq_starts_with(e.message@, "PNG conversion failed: "@))),
            r matches Err(e) ==> (e.kind is InternalError ==> (name@ == "svg_to_jpeg"@
                ==> seq_starts_with(e.message@, "JPEG conversion failed: "@))),
            known_tool(name@) && arguments is None ==> (r matches Err(e) && e.message@
                == "Missing arguments"@),
            arguments matches Some(bag) ==> (known_tool(name@) && text_arg(
                bag.entries@,
                "svg_content"@,
            ) is None ==> (r matches Err(e) && e.message@ == "Missing svg_content"@)),
            !known_tool(name@) ==> (r matches Err(e) && e.message@ == "Unknown tool: "@ + name@),
    {
        proof {
            reveal_strlit("svg_to_png");
            reveal_strlit("svg_to_jpeg");
            assert("svg_to_png"@.len() == 10);
            assert("svg_to_jpeg"@.len() == 11);
            assert("svg_to_png"@ != "svg_to_jpeg"@);
        }
        if str_equals(name, "svg_to_png") {
            let bag = match arguments {
                Some(b) => b,
                None => {
                    return Err(invalid_params("Missing arguments"));
                },
            };
            let req = match parse_png_request(bag) {
                Ok(q) => q,
                Err(e) => {
                    return Err(e);
                },
            };
            let return_base64 = match req.return_base64 {
                Some(b) => b,
                None => false,
            };
            match self.convert_svg_to_png(
                req.svg_content.as_str(),
                req.width,
                req.height,
                return_base64,
            ) {
                Ok(res) => {
                    let content = jsonfmt::result_to_json(&res);
                    proof {
                        if !return_base64 {
                            let p = res.file_path->Some_0;
                            assert(content@ == json_of(Some(p@), None, "image/png"@)
                                && seq_ends_with(p@, ".png"@));
                        }
                    }
                    Ok(ToolResponse { content, is_error: false })
                },
                Err(e) => {
                    let mut message = String::new();
                    message.append("PNG conversion failed: ");
                    let cause = e.describe();
                    message.append(cause.as_str());
                    proof {
                        assert(message@ =~= "PNG conversion failed: "@ + cause@);
                        assert(message@.subrange(0, "PNG conversion failed: "@.len() as int)
                            =~= "PNG conversion failed: "@);
                    }
                    Err(DispatchError { kind: ErrorKind::InternalError, message })
                },
            }
        } else if str_equals(name, "svg_to_jpeg") {
            let bag = match arguments {
                Some(b) => b,
                None => {
                    return Err(invalid_params("Missing arguments"));
                },
            };
            let req = match parse_jpeg_request(bag) {
                Ok(q) => q,
                Err(e) => {
                    return Err(e);
                },
            };
            let quality = match req.quality {
                Some(q) => q,
                None => 85,
            };
            let return_base64 = match req.return_base64 {
                Some(b) => b,
                None => false,
            };
            match self.convert_svg_to_jpeg(
                req.svg_content.as_str(),
                req.width,
                req.height,
                quality,
                return_base64,
            ) {
                Ok(res) => {
                    let content = jsonfmt::result_to_json(&res);
                    proof {
                        if !return_base64 {
                            let p = res.file_path->Some_0;
                            assert(content@ == json_of(Some(p@), None, "image/jpeg"@)
                                && seq_ends_with(p@, ".jpg"@));
                        }
                    }
                    Ok(ToolResponse { content, is_error: false })
                },
                Err(e) => {
                    let mut message = String::new();
                    message.append("JPEG conversion failed: ");
                    let cause = e.describe();
                    message.append(cause.as_str());
                    proof {
                        assert(message@ =~= "JPEG conversion failed: "@ + cause@);
                        assert(message@.subrange(0, "JPEG conversion failed: "@.len() as int)
                            =~= "JPEG conversion failed: "@);
                    }
                    Err(DispatchError { kind: ErrorKind::InternalError, message })
                },
            }
        } else {
            let mut message = String::new();
            message.append("Unknown tool: ");
            message.append(name);
            Err(DispatchError { kind: ErrorKind::MethodNotFound, message })
        }
    }

    /// The static list of tool descriptors, for discovery. There is no
    /// pagination: the whole list is returned on every call.
    pub fn list_tools(&self) -> (r: Vec<ToolDescriptor>)
        ensures
            r@.len() == 2,
            r@[0].name@ == "svg_to_png"@,
            r@[0].description@ == "Convert SVG text to PNG image"@,
            r@[0].fields@.len() == 4,
            field_is(
                r@[0].fields@[0],
                "svg_content"@,
                FieldKind::Text,
                true,
                "SVG markup to convert"@,
            ),
            field_is(
                r@[0].fields@[1],
                "width"@,
                FieldKind::UInt,
                false,
                "Output width in pixels (default: intrinsic width)"@,
            ),
            field_is(
                r@[0].fields@[2],
                "height"@,
                FieldKind::UInt,
                false,
                "Output height in pixels (default: intrinsic height)"@,
            ),
            field_is(
                r@[0].fields@[3],
                "return_base64"@,
                FieldKind::Flag,
                false,
                "Whether to return base64 data instead of file path (default: false)"@,
            ),
            r@[1].name@ == "svg_to_jpeg"@,
            r@[1].description@ == "Convert SVG text to JPEG image"@,
            r@[1].fields@.len() == 5,
            field_is(
                r@[1].fields@[0],
                "svg_content"@,
                FieldKind::Text,
                true,
                "SVG markup to convert"@,
            ),
            field_is(
                r@[1].fields@[1],
                "width"@,
                FieldKind::UInt,
                false,
                "Output width in pixels (default: intrinsic width)"@,
            ),
            field_is(
                r@[1].fields@[2],
                "height"@,
                FieldKind::UInt,
                false,
                "Output height in pixels (default: intrinsic height)"@,
            ),
            field_is(
                r@[1].fields@[3],
                "quality"@,
                FieldKind::UInt,
                false,
                "JPEG quality, 0 to 100 (default: 85)"@,
            ),
            field_is(
                r@[1].fields@[4],
                "return_base64"@,
                FieldKind::Flag,
                false,
                "Whether to return base64 data instead of file path (default: false)"@,
            ),
    {
        let mut png_fields: Vec<FieldDesc> = Vec::new();
        png_fields.push(field("svg_content", FieldKind::Text, true, "SVG markup to convert"));
        png_fields.push(
            field(
                "width",
                FieldKind::UInt,
                false,
                "Output width in pixels (default: intrinsic width)",
            ),
        );
        png_fields.push(
            field(
                "height",
                FieldKind::UInt,
                false,
                "Output height in pixels (default: intrinsic height)",
            ),
        );
        png_fields.push(
            field(
                "return_base64",
                FieldKind::Flag,
                false,
                "Whether to return base64 data instead of file path (default: false)",
            ),
        );
        let mut jpeg_fields: Vec<FieldDesc> = Vec::new();
        jpeg_fields.push(field("svg_content", FieldKind::Text, true, "SVG markup to convert"));
        jpeg_fields.push(
            field(
                "width",
                FieldKind::UInt,
                false,
                "Output width in pixels (default: intrinsic width)",
            ),
        );
        jpeg_fields.push(
            field(
                "height",
                FieldKind::UInt,
                false,
                "Output height in pixels (default: intrinsic height)",
            ),
        );
        jpeg_fields.push(field("quality", FieldKind::UInt, false, "JPEG quality, 0 to 100 (default: 85)"));
        jpeg_fields.push(
            field(
                "return_base64",
                FieldKind::Flag,
                false,
                "Whether to return base64 data instead of file path (default: false)",
            ),
        );
        let mut tools: Vec<ToolDescriptor> = Vec::new();
        tools.push(
            ToolDescriptor {
                name: "svg_to_png".to_owned(),
                description: "Convert SVG text to PNG image".to_owned(),
                fields: png_fields,
            },
        );
        tools.push(
            ToolDescriptor {
                name: "svg_to_jpeg".to_owned(),
                description: "Convert SVG text to JPEG image".to_owned(),
                fields: jpeg_fields,
            },
        );
        tools
    }
}

} // verus!
