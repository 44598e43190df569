//! Utility functions: the byte-string to text bridge and loader format
//! autodetection.

use crate::error::CallmError;
use vstd::prelude::*;
use vstd::string::StringSliceAdditionalSpecFns;

verus! {

/// The text that `String::from_utf8_lossy` decodes from a byte string. The
/// result is a function of the bytes alone.
pub uninterp spec fn utf8_of(b: Seq<u8>) -> Seq<char>;

/// Relies on `String::from_utf8_lossy`: decodes a metadata byte string into
/// text, replacing invalid sequences; an empty input decodes to an empty
/// string.
#[verifier::external_body]
pub(crate) fn utf8_lossy(b: &[u8]) -> (r: String)
    ensures
        r@ == utf8_of(b@),
        b@.len() == 0 ==> r@.len() == 0,
{
    String::from_utf8_lossy(b).into_owned()
}

/// The loader implementation selected for a filesystem location.
#[derive(Clone, Copy, Debug, PartialEq, Eq, Structural)]
pub enum LoaderFormat {
    /// The quantized-container loader.
    Gguf,
    /// The directory/shard loader.
    Safetensors,
}

/// What format autodetection decides for one location, before any retry:
/// a loader, a recognized-but-unsupported format, or a retry against the
/// parent directory.
#[derive(Clone, Copy, Debug, PartialEq, Eq, Structural)]
pub enum FormatDecision {
    /// Use the loader of this format.
    Use(LoaderFormat),
    /// A recognized but unsupported single-file format.
    Unsupported,
    /// No recognized extension: retry once against the parent directory.
    RetryParent,
}

/// Whether `s` ends with `suffix`, on the underlying bytes.
pub open spec fn spec_ends_with(s: &str, suffix: &str) -> bool {
    s.spec_bytes().len() >= suffix.spec_bytes().len() && s.spec_bytes().skip(
        s.spec_bytes().len() - suffix.spec_bytes().len(),
    ) == suffix.spec_bytes()
}

/// The decision table of format autodetection for a single location.
pub open spec fn spec_detect(path: &str, is_file: bool) -> FormatDecision {
    if !is_file {
        FormatDecision::Use(LoaderFormat::Safetensors)
    } else if spec_ends_with(path, ".gguf") {
        FormatDecision::Use(LoaderFormat::Gguf)
    } else if spec_ends_with(path, ".ggml") {
        FormatDecision::Unsupported
    } else if spec_ends_with(path, ".safetensors") {
        FormatDecision::Use(LoaderFormat::Safetensors)
    } else {
        FormatDecision::RetryParent
    }
}

/// Decides which loader a location selects: a directory always selects the
/// directory/shard loader; a regular file is dispatched on its extension
/// (quantized-container extension, shard extension, or the recognized but
/// not supported legacy extension); anything else asks for one retry
/// against the parent directory.
pub fn detect_format(path: &str, is_file: bool) -> (r: FormatDecision)
    ensures
        r == spec_detect(path, is_file),
{
    if !is_file {
        return FormatDecision::Use(LoaderFormat::Safetensors);
    }
    if str_ends_with(path, ".gguf") {
        FormatDecision::Use(LoaderFormat::Gguf)
    } else if str_ends_with(path, ".ggml") {
        FormatDecision::Unsupported
    } else if str_ends_with(path, ".safetensors") {
        FormatDecision::Use(LoaderFormat::Safetensors)
    } else {
        FormatDecision::RetryParent
    }
}

/// The loader error returned when no suitable loader exists for a location.
pub fn no_loader_error() -> (r: CallmError)
    ensures
        r matches CallmError::LoaderFail(m) && m@ == "No suitable loader found"@,
{
    CallmError::LoaderFail(String::from_str("No suitable loader found"))
}

/// Whether `s` ends with `suffix`, decided on the underlying bytes.
fn str_ends_with(s: &str, suffix: &str) -> (r: bool)
    ensures
        r == spec_ends_with(s, suffix),
{
    let sb = s.as_bytes();
    let xb = suffix.as_bytes();
    if sb.len() < xb.len() {
        return false;
    }
    let tail = vstd::slice::slice_subrange(sb, sb.len() - xb.len(), sb.len());
    let r = crate::gguf::meta::bytes_eq(tail, xb);
    proof {
        assert(sb@.subrange(sb@.len() - xb@.len(), sb@.len() as int) =~= sb@.skip(
            sb@.len() - xb@.len(),
        ));
    }
    r
}

} // verus!
