use vstd::prelude::*;
use crate::error::ConvertError;

verus! {

/// The frame tool's location, or `NotFound` with install guidance when the
/// search found none.
pub fn get_ffmpeg(found: Option<String>) -> (r: Result<String, ConvertError>)
    ensures
        found matches Some(p) ==> r == Ok::<String, ConvertError>(p),
        found is None ==> (r matches Err(ConvertError::NotFound(m)) && m@
            == "FFmpeg not found. Please install FFmpeg and ensure it is in your PATH."@),
{
    match found {
        Some(p) => Ok(p),
        None => Err(
            ConvertError::NotFound(
                String::from_str("FFmpeg not found. Please install FFmpeg and ensure it is in your PATH."),
            ),
        ),
    }
}

/// The probe tool's location, or `NotFound` with install guidance when the
/// search found none.
pub fn get_ffprobe(found: Option<String>) -> (r: Result<String, ConvertError>)
    ensures
        found matches Some(p) ==> r == Ok::<String, ConvertError>(p),
        found is None ==> (r matches Err(ConvertError::NotFound(m)) && m@
            == "FFprobe not found. Please install FFmpeg and ensure it is in your PATH."@),
{
    match found {
        Some(p) => Ok(p),
        None => Err(
            ConvertError::NotFound(
                String::from_str("FFprobe not found. Please install FFmpeg and ensure it is in your PATH."),
            ),
        ),
    }
}

/// Longest diagnostic text an error carries, in characters.
pub const MAX_DIAGNOSTIC_CHARS: usize = 1000;

/// `context` followed by the first `MAX_DIAGNOSTIC_CHARS` characters of
/// `diagnostics`.
pub open spec fn spec_failure_text(context: Seq<char>, diagnostics: Seq<char>) -> Seq<char> {
    context + diagnostics.take(
        if diagnostics.len() > MAX_DIAGNOSTIC_CHARS { MAX_DIAGNOSTIC_CHARS as int } else { diagnostics.len() as int },
    )
}

/// A `ProcessFailure` whose message is `context` followed by the first
/// `MAX_DIAGNOSTIC_CHARS` characters of the process's diagnostics.
pub fn process_failure(context: &str, diagnostics: &str) -> (r: ConvertError)
    ensures
        r matches ConvertError::ProcessFailure(m) && m@ == spec_failure_text(context@, diagnostics@),
{
    let n = diagnostics.unicode_len();
    let keep = if n > MAX_DIAGNOSTIC_CHARS {
        MAX_DIAGNOSTIC_CHARS
    } else {
        n
    };
    let head = diagnostics.substring_char(0, keep);
    let m = String::from_str(context).concat(head);
    ConvertError::ProcessFailure(m)
}

} // verus!
