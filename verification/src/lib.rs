//! Conversion of SVG markup into raster images (PNG, JPEG), delivered either
//! as a temporary file path or as an inline base64 payload, together with a
//! schema-described tool dispatch layer for remote callers.
pub mod backend;
pub mod convert;
pub mod dispatch;
pub mod errors;
pub mod jsonfmt;
pub mod packaging;
pub mod pixels;

pub use convert::SvgConverter;
pub use dispatch::SvgToJpegRequest;
pub use dispatch::SvgToPngRequest;
pub use packaging::ConversionResult;
