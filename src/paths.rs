use vstd::prelude::*;

use std::path::Path;

verus! {

/// The path that joining `file` onto the directory `dir` gives.
pub uninterp spec fn joined_path(dir: Seq<char>, file: Seq<char>) -> Seq<char>;

/// Relies on std::path::Path::join: `file` appended to `dir` after a
/// separator, or `file` alone where it is absolute. Both inputs are UTF-8,
/// so the joined path converts back to a string without loss.
#[verifier::external_body]
fn join(dir: &str, file: &str) -> (r: String)
    ensures
        r@ == joined_path(dir@, file@),
{
    Path::new(dir).join(file).to_string_lossy().into_owned()
}

/// The locator of the clip `file` in the sound directory `dir`.
pub fn build_path(dir: &str, file: &str) -> (r: String)
    ensures
        r@ == joined_path(dir@, file@),
{
    join(dir, file)
}

} // verus!
