//! Trusted probes of the host's filesystem paths.
//!
//! Both results depend on the state of the host at the moment of the call,
//! so their contracts promise nothing; every caller is verified for every
//! outcome.

use vstd::prelude::*;

verus! {

/// Relies on `std::path::Path::exists`: whether the path names an existing
/// filesystem object at the moment of the probe.
#[verifier::external_body]
pub(crate) fn path_exists(path: &str) -> bool {
    std::path::Path::new(path).exists()
}

/// Relies on `std::path::Path::canonicalize`: the unique absolute form of
/// the path, with all symbolic links resolved, or `None` where resolution
/// fails or the resolved form is not valid UTF-8.
#[verifier::external_body]
pub(crate) fn canonicalize_path(path: &str) -> Option<String> {
    match std::path::Path::new(path).canonicalize() {
        Ok(resolved) => match resolved.to_str() {
            Some(s) => Some(String::from(s)),
            None => None,
        },
        Err(_) => None,
    }
}

} // verus!
