use vstd::prelude::*;

verus! {

/// Relies on std::path::Path::is_dir: whether the path names an existing
/// directory. The answer depends on the filesystem at the instant of the
/// call, so nothing is promised of it.
#[verifier::external_body]
pub(crate) fn path_is_dir(path: &str) -> bool {
    std::path::Path::new(path).is_dir()
}

/// Relies on std::path::Path::exists: whether the path names anything at
/// all. The answer depends on the filesystem at the instant of the call,
/// so nothing is promised of it.
#[verifier::external_body]
pub(crate) fn path_exists(path: &str) -> bool {
    std::path::Path::new(path).exists()
}

/// Relies on std::path::Path::canonicalize, documented to return the
/// canonical, absolute form of the path: on this platform an absolute
/// path begins with the separator. The error case carries the rendered
/// io error.
#[verifier::external_body]
pub(crate) fn canonicalize_path(path: &str) -> (r: Result<String, String>)
    ensures
        r matches Ok(p) ==> p@.len() >= 1 && p@[0] == '/',
{
    match std::path::Path::new(path).canonicalize() {
        Ok(p) => Ok(p.to_string_lossy().into_owned()),
        Err(e) => Err(e.to_string()),
    }
}

} // verus!
