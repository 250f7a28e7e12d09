//! Trusted probes of the machine: the clock, the disk, the executable
//! search path, and byte-to-text decoding.
//!
//! Every function here is a thin wrapper around one outside call.  What a
//! probe answers depends on the machine, the disk or the clock, so the
//! contracts promise only what holds of every outcome; the verified
//! functions that consume the answers take them as plain arguments and
//! are proved for every value.

use vstd::prelude::*;

verus! {

/// The text `String::from_utf8_lossy` decodes from the bytes: a function
/// of the bytes alone.
pub uninterp spec fn lossy_of(b: Seq<u8>) -> Seq<char>;

/// Relies on String::from_utf8_lossy: decodes the bytes as UTF-8,
/// substituting the replacement character for invalid sequences; no bytes
/// decode to no characters.
#[verifier::external_body]
pub(crate) fn utf8_lossy(b: &[u8]) -> (r: String)
    ensures
        r@ == lossy_of(b@),
        b@.len() == 0 ==> r@.len() == 0,
{
    String::from_utf8_lossy(b).to_string()
}

/// Relies on std::time::SystemTime::now: milliseconds since the Unix
/// epoch. Nothing is promised of the clock; the cache logic is verified
/// for every timestamp it might hand back.
#[verifier::external_body]
pub(crate) fn now_millis() -> u64 {
    match std::time::SystemTime::now().duration_since(std::time::UNIX_EPOCH) {
        Ok(d) => d.as_millis() as u64,
        Err(_) => 0,
    }
}

/// Relies on std::path::Path::exists: whether the path points at an
/// existing entity on disk. The answer depends on the disk, so nothing is
/// promised of it.
#[verifier::external_body]
pub(crate) fn path_exists(p: &str) -> bool {
    std::path::Path::new(p).exists()
}

/// Relies on which::which: resolves an executable name on the search
/// path, rendered as a path string. The answer depends on the machine, so
/// nothing is promised of it.
#[verifier::external_body]
pub(crate) fn which_binary(name: &str) -> Option<String> {
    match which::which(name) {
        Ok(p) => Some(p.to_string_lossy().to_string()),
        Err(_) => None,
    }
}

} // verus!
