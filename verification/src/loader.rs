//! The platform dynamic-library loader, seen through `libloading`.

use vstd::prelude::*;

verus! {

#[verifier::external_type_specification]
#[verifier::external_body]
pub struct ExLibrary(libloading::Library);

/// Relies on `libloading::Library::new`: asks the platform loader to open
/// the library named by `path`.  Whether that succeeds depends on the
/// machine, so nothing is promised of the outcome; on failure the loader's
/// diagnostic text is retained.
#[verifier::external_body]
pub fn open_library(path: &str) -> (r: Result<libloading::Library, String>) {
    match libloading::Library::new(path) {
        Ok(lib) => Ok(lib),
        Err(e) => Err(format!("{}", e)),
    }
}

} // verus!
