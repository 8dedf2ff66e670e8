//! The conversion service: SVG markup in, a packaged raster image out.
use vstd::prelude::*;

use crate::backend;
use crate::backend::base64_of;
use crate::backend::jpeg_encoding;
use crate::backend::png_encoding;
use crate::backend::rendered_rgba;
use crate::backend::seq_ends_with;
use crate::backend::svg_intrinsic;
use crate::backend::svg_parse_error;
use crate::errors::ConversionError;
use crate::packaging;
use crate::packaging::exactly_one_output;
use crate::packaging::ConversionResult;
use crate::pixels;
use crate::pixels::drop_alpha;

verus! {

/// One output axis: the caller's value when given, else the document's
/// intrinsic size. No aspect ratio is preserved; each axis is resolved
/// independently.
pub open spec fn resolved_dim(requested: Option<u32>, intrinsic: u32) -> u32 {
    match requested {
        Some(v) => v,
        None => intrinsic,
    }
}

/// The markup parses and both resolved output dimensions are positive.
pub open spec fn dims_ok(s: Seq<char>, width: Option<u32>, height: Option<u32>) -> bool {
    match svg_intrinsic(s) {
        Some(d) => resolved_dim(width, d.0) > 0 && resolved_dim(height, d.1) > 0,
        None => false,
    }
}

/// The PNG byte stream a conversion of `s` delivers: the markup rendered at
/// the resolved dimensions, encoded losslessly.
pub open spec fn png_output(s: Seq<char>, width: Option<u32>, height: Option<u32>) -> Seq<u8> {
    let d = svg_intrinsic(s)->Some_0;
    let w = resolved_dim(width, d.0);
    let h = resolved_dim(height, d.1);
    png_encoding(rendered_rgba(s, w, h), w, h)
}

/// The JPEG byte stream a conversion of `s` delivers: the markup rendered at
/// the resolved dimensions, the alpha channel dropped, encoded at `quality`.
pub open spec fn jpeg_output(
    s: Seq<char>,
    width: Option<u32>,
    height: Option<u32>,
    quality: u8,
) -> Seq<u8> {
    let d = svg_intrinsic(s)->Some_0;
    let w = resolved_dim(width, d.0);
    let h = resolved_dim(height, d.1);
    jpeg_encoding(drop_alpha(rendered_rgba(s, w, h)), w, h, quality)
}

/// The conversion service. It holds no state: every call owns its own pixel
/// and byte buffers and nothing is shared or cached across calls.
pub struct SvgConverter;

impl SvgConverter {
    pub fn new() -> (r: Self)
        ensures
            r == (SvgConverter {  }),
    {
        SvgConverter
    }

    /// Converts SVG markup to a PNG image.
    ///
    /// Each missing dimension falls back to the document's intrinsic size in
    /// whole pixels; given dimensions are honored literally (stretch, not
    /// letterbox). The result is delivered inline as base64 when
    /// `return_base64` is set, else as the path of a fresh persisted file
    /// ending in `.png`; either way `mime_type` is `"image/png"`.
    pub fn convert_svg_to_png(
        &self,
        svg_content: &str,
        width: Option<u32>,
        height: Option<u32>,
        return_base64: bool,
    ) -> (r: Result<ConversionResult, ConversionError>)
        ensures
            r matches Err(e) ==> (e is ParseFailure || e is InvalidDimensions
                || e is AllocationFailure || e is IoFailure),
            (r matches Err(e) && e is ParseFailure) <==> svg_intrinsic(svg_content@) is None,
            r matches Err(e) ==> (e is ParseFailure ==> e.spec_describe() == svg_parse_error(
                svg_content@,
            )),
            (r matches Err(e) && e is InvalidDimensions) <==> (svg_intrinsic(svg_content@) is Some
                && !dims_ok(svg_content@, width, height)),
            (r matches Err(e) && e is AllocationFailure) ==> dims_ok(svg_content@, width, height),
            (r matches Err(e) && e is IoFailure) ==> !return_base64,
            r is Ok ==> dims_ok(svg_content@, width, height),
            r matches Ok(res) ==> {
                &&& exactly_one_output(res)
                &&& res.mime_type@ == "image/png"@
                &&& return_base64 ==> res.file_path is None
                &&& return_base64 ==> (res.base64_data matches Some(d) && d@ == base64_of(
                    png_output(svg_content@, width, height),
                ))
                &&& !return_base64 ==> res.base64_data is None
                &&& !return_base64 ==> (res.file_path matches Some(p) && seq_ends_with(
                    p@,
                    ".png"@,
                ))
            },
    {
        let doc = match backend::parse_svg(svg_content) {
            Ok(d) => d,
            Err(msg) => {
                return Err(ConversionError::ParseFailure(msg));
            },
        };
        let final_width = match width {
            Some(w) => w,
            None => doc.intrinsic_width(),
        };
        let final_height = match height {
            Some(h) => h,
            None => doc.intrinsic_height(),
        };
        if final_width == 0 || final_height == 0 {
            return Err(ConversionError::InvalidDimensions);
        }
        let rgba = match backend::render_rgba(&doc, final_width, final_height) {
            Some(p) => p,
            None => {
                return Err(ConversionError::AllocationFailure);
            },
        };
        let png_bytes = match backend::encode_png_bytes(&rgba, final_width, final_height) {
            Ok(b) => b,
            Err(msg) => {
                return Err(ConversionError::IoFailure(msg));
            },
        };
        packaging::package(&png_bytes, "image/png", ".png", return_base64)
    }

    /// Converts SVG markup to a JPEG image.
    ///
    /// Dimensions are resolved as for PNG. The rendered RGBA buffer loses its
    /// alpha channel by a straight drop (no background compositing), then is
    /// encoded at `quality`, which must be at most 100; the quality belongs to
    /// the encoding step, so it is validated after parsing and dimension
    /// resolution. The result is delivered inline as base64 or as the path of
    /// a fresh persisted file ending in `.jpg`; either way `mime_type` is
    /// `"image/jpeg"`.
    pub fn convert_svg_to_jpeg(
        &self,
        svg_content: &str,
        width: Option<u32>,
        height: Option<u32>,
        quality: u8,
        return_base64: bool,
    ) -> (r: Result<ConversionResult, ConversionError>)
        ensures
            r matches Err(e) ==> (e is InvalidParameter || e is ParseFailure
                || e is InvalidDimensions || e is AllocationFailure || e is IoFailure),
            (r matches Err(e) && e is ParseFailure) <==> svg_intrinsic(svg_content@) is None,
            r matches Err(e) ==> (e is ParseFailure ==> e.spec_describe() == svg_parse_error(
                svg_content@,
            )),
            (r matches Err(e) && e is InvalidDimensions) <==> (svg_intrinsic(svg_content@) is Some
                && !dims_ok(svg_content@, width, height)),
            (r matches Err(e) && e is InvalidParameter) <==> (dims_ok(svg_content@, width, height)
                && quality > 100),
            r matches Err(e) ==> (e is InvalidParameter ==> e.spec_describe()
                == "quality must be between 0 and 100"@),
            (r matches Err(e) && e is AllocationFailure) ==> (dims_ok(svg_content@, width, height)
                && quality <= 100),
            r matches Err(e) ==> (e is IoFailure ==> (!return_base64 || ({
                let d = svg_intrinsic(svg_content@)->Some_0;
                resolved_dim(width, d.0) > 65535 || resolved_dim(height, d.1) > 65535
            }))),
            r is Ok ==> quality <= 100 && dims_ok(svg_content@, width, height),
            r matches Ok(res) ==> {
                &&& exactly_one_output(res)
                &&& res.mime_type@ == "image/jpeg"@
                &&& return_base64 ==> res.file_path is None
                &&& return_base64 ==> (res.base64_data matches Some(d) && d@ == base64_of(
                    jpeg_output(svg_content@, width, height, quality),
                ))
                &&& !return_base64 ==> res.base64_data is None
                &&& !return_base64 ==> (res.file_path matches Some(p) && seq_ends_with(
                    p@,
                    ".jpg"@,
                ))
            },
    {
        let doc = match backend::parse_svg(svg_content) {
            Ok(d) => d,
            Err(msg) => {
                return Err(ConversionError::ParseFailure(msg));
            },
        };
        let final_width = match width {
            Some(w) => w,
            None => doc.intrinsic_width(),
        };
        let final_height = match height {
            Some(h) => h,
            None => doc.intrinsic_height(),
        };
        if final_width == 0 || final_height == 0 {
            return Err(ConversionError::InvalidDimensions);
        }
        if quality > 100 {
            return Err(
                ConversionError::InvalidParameter("quality must be between 0 and 100".to_owned()),
            );
        }
        let rgba = match backend::render_rgba(&doc, final_width, final_height) {
            Some(p) => p,
            None => {
                return Err(ConversionError::AllocationFailure);
            },
        };
        let rgb = pixels::rgba_to_rgb(&rgba);
        proof {
            let wi = final_width as int;
            let hi = final_height as int;
            assert(((4 * wi * hi) / 4) * 3 == 3 * wi * hi) by (nonlinear_arith);
            assert(rgb@.len() == 3 * wi * hi);
        }
        let jpeg_bytes = match backend::encode_jpeg_bytes(&rgb, final_width, final_height, quality)
        {
            Ok(b) => b,
            Err(msg) => {
                return Err(ConversionError::IoFailure(msg));
            },
        };
        packaging::package(&jpeg_bytes, "image/jpeg", ".jpg", return_base64)
    }
}

} // verus!
