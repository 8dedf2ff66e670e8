//! Error taxonomy of the conversion service and of the tool dispatcher.
use vstd::prelude::*;

verus! {

/// A failure of one conversion call. Every failure is reported to the caller
/// as a value; no failure aborts the process.
#[derive(Debug)]
pub enum ConversionError {
    /// A caller-supplied parameter is out of its documented range
    /// (a JPEG quality above 100). The message names the parameter.
    InvalidParameter(String),
    /// The SVG markup does not parse; the message passes the parser's
    /// diagnostic through.
    ParseFailure(String),
    /// A resolved output dimension is zero, so no pixel buffer can be made.
    InvalidDimensions,
    /// The pixel buffer could not be allocated (dimensions too large).
    AllocationFailure,
    /// Encoding the pixel buffer or writing the output file failed; the
    /// message passes the underlying error through.
    IoFailure(String),
}

impl ConversionError {
    /// A short human-readable description, used by the dispatcher when it
    /// wraps a conversion failure as an internal error.
    pub fn describe(&self) -> (r: String)
        ensures
            r@ == self.spec_describe(),
    {
        match self {
            ConversionError::InvalidParameter(m) => m.clone(),
            ConversionError::ParseFailure(m) => m.clone(),
            ConversionError::InvalidDimensions => "invalid output dimensions".to_owned(),
            ConversionError::AllocationFailure => "failed to create pixmap".to_owned(),
            ConversionError::IoFailure(m) => m.clone(),
        }
    }

    pub open spec fn spec_describe(&self) -> Seq<char> {
        match self {
            ConversionError::InvalidParameter(m) => m@,
            ConversionError::ParseFailure(m) => m@,
            ConversionError::InvalidDimensions => "invalid output dimensions"@,
            ConversionError::AllocationFailure => "failed to create pixmap"@,
            ConversionError::IoFailure(m) => m@,
        }
    }
}

/// The class of a dispatcher-level failure.
#[derive(Debug, Clone, Copy, PartialEq, Eq, Structural)]
pub enum ErrorKind {
    /// The request named a tool that does not exist.
    MethodNotFound,
    /// The argument bag is missing, or a field is missing, wrong-typed or out
    /// of range.
    InvalidParams,
    /// The conversion service itself failed; the message carries the cause.
    InternalError,
}

/// A structured dispatcher error: a kind plus a human-readable message.
#[derive(Debug)]
pub struct DispatchError {
    pub kind: ErrorKind,
    pub message: String,
}

} // verus!
