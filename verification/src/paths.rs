//! File-system paths as text.
//!
//! The library holds a path as a `String` and never splits one itself: the
//! parts of a path are those that `std::path::Path` finds in it. Each
//! function here asks `Path` for one part and names what it answers.

use vstd::prelude::*;

verus! {

/// The extension that `Path::extension` finds in the path `path`.
pub uninterp spec fn path_extension(path: Seq<char>) -> Option<Seq<char>>;

/// The final component that `Path::file_name` finds in the path `path`.
pub uninterp spec fn path_file_name(path: Seq<char>) -> Option<Seq<char>>;

/// The final component without its extension, as `Path::file_stem` finds it
/// in the path `path`.
pub uninterp spec fn path_file_stem(path: Seq<char>) -> Option<Seq<char>>;

/// The path without its final component, as `Path::parent` finds it in the
/// path `path`.
pub uninterp spec fn path_parent(path: Seq<char>) -> Option<Seq<char>>;

/// The path that `Path::join` makes of the path `base` and the path `more`.
pub uninterp spec fn path_join(base: Seq<char>, more: Seq<char>) -> Seq<char>;

/// Calls `Path::extension` of the standard library on the path `path` and
/// hands back the extension as a string. The answer is a function of the
/// text of the path alone, named [`path_extension`].
#[verifier::external_body]
pub(crate) fn extension(path: &str) -> (r: Option<String>)
    ensures
        r is Some <==> path_extension(path@) is Some,
        r matches Some(text) ==> path_extension(path@) == Some(text@),
{
    std::path::Path::new(path).extension().and_then(|part| part.to_str()).map(String::from)
}

/// Calls `Path::file_name` of the standard library on the path `path` and
/// hands back the component as a string. The answer is a function of the
/// text of the path alone, named [`path_file_name`].
#[verifier::external_body]
pub(crate) fn file_name(path: &str) -> (r: Option<String>)
    ensures
        r is Some <==> path_file_name(path@) is Some,
        r matches Some(text) ==> path_file_name(path@) == Some(text@),
{
    std::path::Path::new(path).file_name().and_then(|part| part.to_str()).map(String::from)
}

/// Calls `Path::file_stem` of the standard library on the path `path` and
/// hands back the stem as a string. The answer is a function of the text of
/// the path alone, named [`path_file_stem`].
#[verifier::external_body]
pub(crate) fn file_stem(path: &str) -> (r: Option<String>)
    ensures
        r is Some <==> path_file_stem(path@) is Some,
        r matches Some(text) ==> path_file_stem(path@) == Some(text@),
{
    std::path::Path::new(path).file_stem().and_then(|part| part.to_str()).map(String::from)
}

/// Calls `Path::parent` of the standard library on the path `path` and hands
/// back the parent as a string. The answer is a function of the text of the
/// path alone, named [`path_parent`].
#[verifier::external_body]
pub(crate) fn parent(path: &str) -> (r: Option<String>)
    ensures
        r is Some <==> path_parent(path@) is Some,
        r matches Some(text) ==> path_parent(path@) == Some(text@),
{
    std::path::Path::new(path).parent().and_then(|part| part.to_str()).map(String::from)
}

/// Calls `Path::join` of the standard library on the paths `base` and `more`
/// and hands back the joined path as a string. The answer is a function of
/// the two texts alone, named [`path_join`].
#[verifier::external_body]
pub(crate) fn join(base: &str, more: &str) -> (r: String)
    ensures
        r@ == path_join(base@, more@),
{
    std::path::Path::new(base).join(more).to_string_lossy().into_owned()
}

} // verus!
