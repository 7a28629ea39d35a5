//! File paths and debug text, as the standard library handles them.
//!
//! Nothing in this file is proved. The standard library joins and splits
//! paths by the rules of the platform that the library is built for, so the
//! names below stand for its answers on that platform: a contract that
//! speaks of them says the same on every platform, and the texts behind them
//! differ where the separators do.

use crate::collector::entry::option_view;
use vstd::prelude::*;

verus! {

/// `dir` with `file` joined to it as a path: what `Path::join` gives.
pub uninterp spec fn path_joined(dir: Seq<char>, file: Seq<char>) -> Seq<char>;

/// The last component of a path, where it has one that is a file or
/// directory name: what `Path::file_name` gives.
pub uninterp spec fn path_file_name(path: Seq<char>) -> Option<Seq<char>>;

/// A path between quotes with its special characters escaped: what the
/// `{:?}` format of a `Path` writes.
pub uninterp spec fn path_debug(path: Seq<char>) -> Seq<char>;

/// A list of strings in brackets, each between quotes with its special
/// characters escaped: what the `{:?}` format of a `Vec<String>` writes.
pub uninterp spec fn list_debug(items: Seq<Seq<char>>) -> Seq<char>;

/// Calls `Path::join` and turns the result, which is made of two strings,
/// back into a string. The contract names the joined path.
#[verifier::external_body]
pub(crate) fn join_path(dir: &str, file: &str) -> (s: String)
    ensures
        s@ == path_joined(dir@, file@),
{
    std::path::Path::new(dir).join(file).to_string_lossy().into_owned()
}

/// Calls `Path::file_name` and copies the name. The contract names the
/// result by the path.
#[verifier::external_body]
pub(crate) fn file_name_of(path: &str) -> (r: Option<String>)
    ensures
        option_view(r) == path_file_name(path@),
{
    std::path::Path::new(path).file_name().and_then(|n| n.to_str()).map(|n| n.to_string())
}

/// Formats a path with `{:?}`. The contract names the text by the path.
#[verifier::external_body]
pub(crate) fn debug_path(path: &str) -> (s: String)
    ensures
        s@ == path_debug(path@),
{
    format!("{:?}", std::path::Path::new(path))
}

/// Formats a list of strings with `{:?}`. The contract names the text by the
/// list.
#[verifier::external_body]
pub(crate) fn debug_list(items: &Vec<String>) -> (s: String)
    ensures
        s@ == list_debug(crate::text::strings_view(items@)),
{
    format!("{:?}", items)
}

} // verus!
