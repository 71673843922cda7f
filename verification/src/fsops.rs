use vstd::prelude::*;

verus! {

/// Relies on fs_extra::dir::remove: recursively deletes the directory at
/// `path` if it exists, and succeeds without touching anything if it does
/// not. The outcome depends on the state of the filesystem, so nothing is
/// promised beyond the shape of the result; the error case carries the
/// diagnostic text of the underlying failure.
#[verifier::external_body]
pub(crate) fn remove_tree(path: &String) -> Result<(), String> {
    match fs_extra::dir::remove(path) {
        Ok(()) => Ok(()),
        Err(e) => Err(e.to_string()),
    }
}

/// Relies on fs_extra::dir::copy with `copy_inside`: recursively copies the
/// tree at `src` to the directory `dst`, creating `dst`. The outcome depends
/// on the state of the filesystem, so nothing is promised beyond the shape
/// of the result; the error case carries the diagnostic text of the
/// underlying failure.
#[verifier::external_body]
pub(crate) fn copy_tree(src: &str, dst: &String) -> Result<(), String> {
    let mut options = fs_extra::dir::CopyOptions::new();
    options.copy_inside = true;
    match fs_extra::dir::copy(src, dst, &options) {
        Ok(_) => Ok(()),
        Err(e) => Err(e.to_string()),
    }
}

} // verus!
