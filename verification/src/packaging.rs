//! Packaging of encoded image bytes under one of the two delivery modes.
use vstd::prelude::*;

use crate::backend;
use crate::backend::base64_of;
use crate::backend::seq_ends_with;
use crate::errors::ConversionError;

verus! {

/// The result of one successful conversion: exactly one of `file_path` and
/// `base64_data` is populated, and `mime_type` names the output format.
#[derive(Debug)]
pub struct ConversionResult {
    pub file_path: Option<String>,
    pub base64_data: Option<String>,
    pub mime_type: String,
}

/// Exactly one of the two delivery fields is populated: never both, never
/// neither.
pub open spec fn exactly_one_output(res: ConversionResult) -> bool {
    (res.file_path is Some) != (res.base64_data is Some)
}

/// Wraps encoded bytes as a `ConversionResult`.
///
/// With `return_base64` the bytes are delivered inline as standard base64 and
/// this cannot fail; otherwise they are written whole to a fresh uniquely
/// named file whose name ends with `extension`, the file is left on disk for
/// the caller (the service never deletes it), and a creation or write failure
/// is an `IoFailure`.
pub fn package(bytes: &Vec<u8>, mime_type: &str, extension: &str, return_base64: bool) -> (r:
    Result<ConversionResult, ConversionError>)
    ensures
        return_base64 ==> r is Ok,
        r matches Err(e) ==> !return_base64 && e is IoFailure,
        r matches Ok(res) ==> {
            &&& exactly_one_output(res)
            &&& res.mime_type@ == mime_type@
            &&& return_base64 ==> res.file_path is None
            &&& return_base64 ==> (res.base64_data matches Some(d) && d@ == base64_of(bytes@))
            &&& !return_base64 ==> res.base64_data is None
            &&& !return_base64 ==> (res.file_path matches Some(p) && seq_ends_with(
                p@,
                extension@,
            ))
        },
{
    if return_base64 {
        let data = backend::base64_encode(bytes);
        Ok(
            ConversionResult {
                file_path: None,
                base64_data: Some(data),
                mime_type: mime_type.to_owned(),
            },
        )
    } else {
        match backend::persist_temp_file(bytes, extension) {
            Ok(path) => Ok(
                ConversionResult {
                    file_path: Some(path),
                    base64_data: None,
                    mime_type: mime_type.to_owned(),
                },
            ),
            Err(msg) => Err(ConversionError::IoFailure(msg)),
        }
    }
}

} // verus!
