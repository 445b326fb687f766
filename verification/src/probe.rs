//! The one question this crate puts to the file system itself.

use crate::paths::tool_path;
use vstd::prelude::*;

verus! {

/// Asks the file system whether anything exists at `path`, with
/// `std::path::Path::exists`.
///
/// The answer depends on what is on disk at the moment of the call, so
/// nothing is promised about it.
#[verifier::external_body]
fn path_exists(path: &str) -> (found: bool) {
    std::path::Path::new(path).exists()
}

/// Tells whether `cryptsetup` is installed where this tool expects it:
/// asks the file system about the path that [`tool_path`] returns, which
/// is [`crate::paths::tool_location`], and about no other.
///
/// The answer is whatever the file system says when asked, so nothing is
/// promised about it; what follows from it is decided by
/// [`crate::cli::startup`].
pub fn has_cryptsetup() -> (found: bool) {
    let path = tool_path();
    path_exists(path.as_str())
}

} // verus!
