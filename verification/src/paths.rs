//! Path syntax, as the standard library parses it.
//!
//! Paths travel through this crate as UTF-8 strings. How a path splits into
//! components is the platform's business, so each query below is answered by
//! `std::path` and named by an uninterpreted function of the path's text.

use vstd::prelude::*;
use crate::text::opt_text;

verus! {

/// The final component of `path`, as `std::path::Path::file_name` gives it.
pub uninterp spec fn path_file_name(path: Seq<char>) -> Option<Seq<char>>;

/// The final component of `path` without its extension, as
/// `std::path::Path::file_stem` gives it.
pub uninterp spec fn path_file_stem(path: Seq<char>) -> Option<Seq<char>>;

/// The extension of the final component of `path`, as
/// `std::path::Path::extension` gives it.
pub uninterp spec fn path_extension(path: Seq<char>) -> Option<Seq<char>>;

/// `path` without its final component, as `std::path::Path::parent` gives it.
pub uninterp spec fn path_parent(path: Seq<char>) -> Option<Seq<char>>;

/// `tail` adjoined to `base`, as `std::path::Path::join` gives it.
pub uninterp spec fn path_join(base: Seq<char>, tail: Seq<char>) -> Seq<char>;

/// Calls `std::path::Path::file_name`. The result is a function of the
/// path's text alone; nothing more is claimed of it.
#[verifier::external_body]
pub(crate) fn file_name(path: &str) -> (name: Option<String>)
    ensures
        opt_text(name) == path_file_name(path@),
{
    match std::path::Path::new(path).file_name() {
        Some(s) => Some(s.to_string_lossy().into_owned()),
        None => None,
    }
}

/// Calls `std::path::Path::file_stem`. The result is a function of the
/// path's text alone, and there is no stem exactly when the path has no
/// file name.
#[verifier::external_body]
pub(crate) fn file_stem(path: &str) -> (stem: Option<String>)
    ensures
        opt_text(stem) == path_file_stem(path@),
        stem is None <==> path_file_name(path@) is None,
{
    match std::path::Path::new(path).file_stem() {
        Some(s) => Some(s.to_string_lossy().into_owned()),
        None => None,
    }
}

/// Calls `std::path::Path::extension`. The result is a function of the
/// path's text alone; nothing more is claimed of it.
#[verifier::external_body]
pub(crate) fn extension(path: &str) -> (ext: Option<String>)
    ensures
        opt_text(ext) == path_extension(path@),
{
    match std::path::Path::new(path).extension() {
        Some(s) => Some(s.to_string_lossy().into_owned()),
        None => None,
    }
}

/// Calls `std::path::Path::parent`. The result is a function of the path's
/// text alone; nothing more is claimed of it.
#[verifier::external_body]
pub(crate) fn parent(path: &str) -> (dir: Option<String>)
    ensures
        opt_text(dir) == path_parent(path@),
{
    match std::path::Path::new(path).parent() {
        Some(p) => Some(p.to_string_lossy().into_owned()),
        None => None,
    }
}

/// Calls `std::path::Path::join`. The result is a function of the two
/// texts alone; nothing more is claimed of it.
#[verifier::external_body]
pub(crate) fn join(base: &str, tail: &str) -> (joined: String)
    ensures
        joined@ == path_join(base@, tail@),
{
    std::path::Path::new(base).join(tail).to_string_lossy().into_owned()
}

} // verus!
