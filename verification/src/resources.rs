//! Resource path construction.
//!
//! Bundled assets (textures, models, shader programs) live under the `res`
//! directory.  Reading the file itself is the host's business; this module
//! only forms the path.

use vstd::prelude::*;

verus! {

/// The path of a bundled resource: the given path, relative to the asset
/// directory, prefixed with `res/`.
pub fn res_path(relative_file_path: &str) -> (r: String)
    ensures
        r@ == "res/"@ + relative_file_path@,
{
    String::from_str("res/").concat(relative_file_path)
}

} // verus!
