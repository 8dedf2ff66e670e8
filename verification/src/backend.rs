//! The boundary to the outside rendering, encoding and file libraries.
//!
//! Every function here is a trusted wrapper: its body makes one outside call
//! (plus conversions) and its contract states what that call's source shows.
//! Results that are functions of the arguments alone but too large to write
//! out (a parsed document's intrinsic size, rendered pixels, encoded byte
//! streams, base64 text) are given uninterpreted names, and the verified
//! pipeline's contracts speak of those names exactly.
use vstd::prelude::*;

use base64::Engine;

verus! {

/// `s` ends with `suffix`.
pub open spec fn seq_ends_with(s: Seq<char>, suffix: Seq<char>) -> bool {
    &&& s.len() >= suffix.len()
    &&& s.subrange(s.len() - suffix.len(), s.len() as int) == suffix
}

/// `s` starts with `prefix`.
pub open spec fn seq_starts_with(s: Seq<char>, prefix: Seq<char>) -> bool {
    &&& s.len() >= prefix.len()
    &&& s.subrange(0, prefix.len() as int) == prefix
}

/// The outcome of parsing SVG markup under this library's fixed options (an
/// empty font database, external file references never resolved): `None` when
/// the markup is rejected, otherwise the document's intrinsic width and
/// height, each rounded to a whole pixel count.
pub uninterp spec fn svg_intrinsic(s: Seq<char>) -> Option<(u32, u32)>;

/// The parser's diagnostic for markup that does not parse, a function of the
/// markup alone.
pub uninterp spec fn svg_parse_error(s: Seq<char>) -> Seq<char>;

/// The premultiplied RGBA pixels (8 bits per channel, row-major) of the
/// parsed markup `s` rendered into a `w` by `h` buffer under an anisotropic
/// scale from the intrinsic size to `w` by `h`.
pub uninterp spec fn rendered_rgba(s: Seq<char>, w: u32, h: u32) -> Seq<u8>;

/// The PNG byte stream that encodes a `w` by `h` premultiplied RGBA buffer.
pub uninterp spec fn png_encoding(rgba: Seq<u8>, w: u32, h: u32) -> Seq<u8>;

/// The JPEG byte stream that encodes a `w` by `h` RGB buffer at the given
/// quality.
pub uninterp spec fn jpeg_encoding(rgb: Seq<u8>, w: u32, h: u32, quality: u8) -> Seq<u8>;

/// The standard base64 text (with padding, no line wrapping) of a byte
/// stream.
pub uninterp spec fn base64_of(bytes: Seq<u8>) -> Seq<char>;

#[verifier::external_type_specification]
#[verifier::external_body]
pub struct ExSvgTree(resvg::usvg::Tree);

/// A parsed SVG document together with its source markup and its intrinsic
/// size in whole pixels. Only `parse_svg` constructs one, so the tree always
/// is the parse of the stored source.
pub struct SvgDoc {
    tree: resvg::usvg::Tree,
    source: String,
    width: u32,
    height: u32,
}

impl SvgDoc {
    /// The markup this document was parsed from.
    pub closed spec fn src(self) -> Seq<char> {
        self.source@
    }

    pub closed spec fn spec_intrinsic_width(self) -> u32 {
        self.width
    }

    pub closed spec fn spec_intrinsic_height(self) -> u32 {
        self.height
    }

    /// Intrinsic width in whole pixels.
    pub fn intrinsic_width(&self) -> (r: u32)
        ensures
            r == self.spec_intrinsic_width(),
    {
        self.width
    }

    /// Intrinsic height in whole pixels.
    pub fn intrinsic_height(&self) -> (r: u32)
        ensures
            r == self.spec_intrinsic_height(),
    {
        self.height
    }
}

/// Relies on `usvg::Tree::from_str` and `usvg::Tree::size`, under
/// `usvg::Options::default()` (an empty font database) with the `<image>`
/// href resolver for external files disabled: only data URLs inside the
/// markup are resolved, nothing is read from disk, so whether the markup
/// parses, the intrinsic size, and the parsed scene itself are functions of
/// the markup alone. On failure the parser's diagnostic is passed through.
#[verifier::external_body]
pub fn parse_svg(svg_content: &str) -> (r: Result<SvgDoc, String>)
    ensures
        r is Ok <==> svg_intrinsic(svg_content@) is Some,
        r matches Ok(doc) ==> {
            &&& doc.src() == svg_content@
            &&& Some((doc.spec_intrinsic_width(), doc.spec_intrinsic_height())) == svg_intrinsic(
                svg_content@,
            )
        },
        r matches Err(m) ==> m@ == svg_parse_error(svg_content@),
{
    let mut opt = resvg::usvg::Options::default();
    opt.image_href_resolver.resolve_string = Box::new(|_, _| None);
    match resvg::usvg::Tree::from_str(svg_content, &opt) {
        Ok(tree) => {
            let size = tree.size();
            Ok(SvgDoc {
                width: size.width().round() as u32,
                height: size.height().round() as u32,
                source: svg_content.to_owned(),
                tree,
            })
        },
        Err(e) => Err(e.to_string()),
    }
}

/// Relies on `tiny_skia::Pixmap::new` (returns `None` for a zero dimension,
/// a width above `i32::MAX / 4`, or a byte count that cannot be allocated),
/// `tiny_skia::Transform::from_scale`, `resvg::render` and
/// `tiny_skia::Pixmap::take`: the parsed document embeds everything it
/// renders (`parse_svg` resolves no external files), so rendering it into a
/// fresh zero-initialized buffer at a fixed anisotropic scale is a function
/// of the markup and the target size alone, and the buffer holds exactly
/// `4 * w * h` bytes.
#[verifier::external_body]
pub fn render_rgba(doc: &SvgDoc, w: u32, h: u32) -> (r: Option<Vec<u8>>)
    ensures
        w == 0 || h == 0 ==> r is None,
        r matches Some(pixels) ==> {
            &&& pixels@ == rendered_rgba(doc.src(), w, h)
            &&& pixels@.len() == 4 * (w as int) * (h as int)
            &&& 4 * (w as int) <= i32::MAX as int
            &&& 4 * (w as int) * (h as int) <= usize::MAX as int
        },
{
    let mut pixmap = match resvg::tiny_skia::Pixmap::new(w, h) {
        Some(p) => p,
        None => return None,
    };
    let target = match resvg::tiny_skia::IntSize::from_wh(w, h) {
        Some(s) => s.to_size(),
        None => return None,
    };
    let size = doc.tree.size();
    let scale_x = target.width() / size.width();
    let scale_y = target.height() / size.height();
    let transform = resvg::tiny_skia::Transform::from_scale(scale_x, scale_y);
    resvg::render(&doc.tree, transform, &mut pixmap.as_mut());
    Some(pixmap.take())
}

/// Relies on `tiny_skia::Pixmap::from_vec` and `tiny_skia::Pixmap::encode_png`:
/// the PNG byte stream is a function of the pixel bytes and the dimensions
/// alone, written with fixed settings into an in-memory buffer. `from_vec`
/// returns `None` (reported as `Err`) when the byte count does not match the
/// dimensions; when it does match, the dimensions are positive, the row fits
/// in `i32` and the byte count fits in `usize`, every step succeeds.
#[verifier::external_body]
pub fn encode_png_bytes(rgba: &Vec<u8>, w: u32, h: u32) -> (r: Result<Vec<u8>, String>)
    ensures
        r matches Ok(bytes) ==> bytes@ == png_encoding(rgba@, w, h),
        (rgba@.len() == 4 * (w as int) * (h as int) && 0 < w && 0 < h && 4 * (w as int)
            <= i32::MAX as int && 4 * (w as int) * (h as int) <= usize::MAX as int) ==> r is Ok,
{
    let size = match resvg::tiny_skia::IntSize::from_wh(w, h) {
        Some(s) => s,
        None => return Err("invalid pixmap size".to_owned()),
    };
    match resvg::tiny_skia::Pixmap::from_vec(rgba.clone(), size) {
        Some(pixmap) => match pixmap.encode_png() {
            Ok(bytes) => Ok(bytes),
            Err(e) => Err(e.to_string()),
        },
        None => Err("pixel buffer does not match its dimensions".to_owned()),
    }
}

/// Relies on `image::codecs::jpeg::JpegEncoder::new_with_quality` and
/// `ImageEncoder::write_image` with `ExtendedColorType::Rgb8`: the JPEG byte
/// stream is a function of the pixel bytes, the dimensions and the quality
/// alone. The encoder clamps the quality into 1..=100 itself; a dimension
/// outside 1..=65535 is its only `Err` (all writes go into an in-memory
/// buffer and cannot fail). It asserts that the buffer length matches the
/// dimensions and panics otherwise, so the precondition demands exactly that.
#[verifier::external_body]
pub fn encode_jpeg_bytes(rgb: &Vec<u8>, w: u32, h: u32, quality: u8) -> (r: Result<Vec<u8>, String>)
    requires
        rgb@.len() == 3 * (w as int) * (h as int),
    ensures
        r matches Ok(bytes) ==> bytes@ == jpeg_encoding(rgb@, w, h, quality),
        (0 < w && w <= 65535 && 0 < h && h <= 65535) ==> r is Ok,
{
    let mut out: Vec<u8> = Vec::new();
    let mut cursor = std::io::Cursor::new(&mut out);
    let encoder = image::codecs::jpeg::JpegEncoder::new_with_quality(&mut cursor, quality);
    match image::ImageEncoder::write_image(
        encoder,
        rgb.as_slice(),
        w,
        h,
        image::ExtendedColorType::Rgb8,
    ) {
        Ok(()) => Ok(out),
        Err(e) => Err(e.to_string()),
    }
}

/// Relies on `base64::engine::general_purpose::STANDARD.encode`: standard
/// alphabet with padding and no line wrapping; the text is a function of the
/// input bytes alone.
#[verifier::external_body]
pub fn base64_encode(bytes: &Vec<u8>) -> (r: String)
    ensures
        r@ == base64_of(bytes@),
{
    base64::engine::general_purpose::STANDARD.encode(bytes.as_slice())
}

/// Relies on `tempfile::NamedTempFile::with_suffix`, `std::io::Write::write_all`
/// and `tempfile::NamedTempFile::keep`: on success a fresh uniquely named file
/// whose path ends with `suffix` holds exactly `bytes`, and `keep` releases
/// ownership so the file persists after the call. Failures pass the OS error
/// text through.
#[verifier::external_body]
pub fn persist_temp_file(bytes: &Vec<u8>, suffix: &str) -> (r: Result<String, String>)
    ensures
        r matches Ok(path) ==> seq_ends_with(path@, suffix@),
{
    let mut file = match tempfile::NamedTempFile::with_suffix(suffix) {
        Ok(f) => f,
        Err(e) => return Err(e.to_string()),
    };
    if let Err(e) = std::io::Write::write_all(&mut file, bytes.as_slice()) {
        return Err(e.to_string());
    }
    match file.keep() {
        Ok((_file, path)) => Ok(path.to_string_lossy().to_string()),
        Err(e) => Err(e.to_string()),
    }
}

/// Relies on `str::chars` and `Iterator::collect`: the characters of the
/// string, in order.
#[verifier::external_body]
pub fn str_chars(s: &str) -> (r: Vec<char>)
    ensures
        r@ == s@,
{
    s.chars().collect()
}

/// Relies on `String::from_iter` over characters: the string whose characters
/// are exactly the input, in order.
#[verifier::external_body]
pub fn chars_to_string(chars: &Vec<char>) -> (r: String)
    ensures
        r@ == chars@,
{
    chars.iter().collect()
}

} // verus!
