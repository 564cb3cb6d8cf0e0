use vstd::prelude::*;
use crate::text::{has_suffix, opt_view};

verus! {

/// What `std::path::Path::extension` gives for the path `p`, as text.
pub uninterp spec fn extension_of(p: Seq<char>) -> Option<Seq<char>>;

/// What `std::path::Path::file_name` gives for the path `p`, as text.
pub uninterp spec fn file_name_of(p: Seq<char>) -> Option<Seq<char>>;

/// Calls `std::path::Path::extension` on `path`. The result is a function of the path's text
/// alone; the component rules of `Path` that decide it are not restated here. As documented,
/// the extension is the part of the file name after its final `.`, so it holds no `.` and no
/// separator, the file name ends with `.` and the extension, and a path without any `.` has
/// none. A path given as UTF-8 text has a UTF-8 extension, so the conversion back to text
/// always succeeds.
#[verifier::external_body]
pub(crate) fn path_extension(path: &str) -> (r: Option<String>)
    ensures
        opt_view(r) == extension_of(path@),
        !path@.contains('.') ==> r is None,
        r matches Some(e) ==> {
            &&& !e@.contains('.')
            &&& !e@.contains('/')
            &&& file_name_of(path@) matches Some(n) && has_suffix(n, "."@ + e@)
        },
{
    std::path::Path::new(path).extension().and_then(|e| e.to_str()).map(|e| e.to_string())
}

/// Calls `std::path::Path::file_name` on `path`. The result is a function of the path's text
/// alone; the component rules of `Path` that decide it are not restated here. As documented,
/// the file name is the path's final component, so it holds no separator.
#[verifier::external_body]
pub(crate) fn path_file_name(path: &str) -> (r: Option<String>)
    ensures
        opt_view(r) == file_name_of(path@),
        r matches Some(n) ==> !n@.contains('/'),
{
    std::path::Path::new(path).file_name().and_then(|e| e.to_str()).map(|e| e.to_string())
}

} // verus!
