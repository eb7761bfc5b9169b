use vstd::prelude::*;

use std::path::Path;

verus! {

/// The extension of a path, per `Path::extension`.
pub uninterp spec fn extension_of(p: Seq<char>) -> Option<Seq<char>>;

/// A path with its extension set to `e`, per `Path::with_extension`.
pub uninterp spec fn with_extension_of(p: Seq<char>, e: Seq<char>) -> Seq<char>;

/// `rest` appended to `base`, per `Path::join`.
pub uninterp spec fn joined(base: Seq<char>, rest: Seq<char>) -> Seq<char>;

/// A path relative to `prefix`, per `Path::strip_prefix`; `None` where `p`
/// does not start with `prefix`.
pub uninterp spec fn stripped(p: Seq<char>, prefix: Seq<char>) -> Option<Seq<char>>;

/// The last component of a path, per `Path::file_name`.
pub uninterp spec fn file_name_of(p: Seq<char>) -> Option<Seq<char>>;

/// A path without its last component, per `Path::parent`.
pub uninterp spec fn parent_of(p: Seq<char>) -> Option<Seq<char>>;

/// Whether `s` holds no character that a path separates components by, on
/// any target.
pub open spec fn no_separator(s: Seq<char>) -> bool {
    forall|i: int| 0 <= i < s.len() ==> #[trigger] s[i] != '/' && s[i] != '\\'
}

/// Relies on `Path::extension`: what follows the last `.` of the file name,
/// if any. A part of a `str` is valid UTF-8, so `to_str` keeps it whole.
#[verifier::external_body]
pub(crate) fn extension(p: &str) -> (r: Option<String>)
    ensures
        match r {
            Some(e) => extension_of(p@) == Some(e@),
            None => extension_of(p@) is None,
        },
{
    Path::new(p).extension().and_then(|e| e.to_str()).map(|e| e.to_string())
}

/// Relies on `Path::with_extension`: the path with its extension replaced by
/// `e`. Made of two `str`s, it converts to a `String` whole. It panics on an
/// extension that holds a separator, so none is passed.
#[verifier::external_body]
pub(crate) fn with_extension(p: &str, e: &str) -> (r: String)
    requires
        no_separator(e@),
    ensures
        r@ == with_extension_of(p@, e@),
{
    Path::new(p).with_extension(e).to_string_lossy().into_owned()
}

/// Relies on `Path::join`: `rest` appended to `base` as a further path.
#[verifier::external_body]
pub(crate) fn join(base: &str, rest: &str) -> (r: String)
    ensures
        r@ == joined(base@, rest@),
{
    Path::new(base).join(rest).to_string_lossy().into_owned()
}

/// Relies on `Path::strip_prefix`: `p` relative to `prefix`, where `prefix`
/// is a leading part of it.
#[verifier::external_body]
pub(crate) fn strip_prefix(p: &str, prefix: &str) -> (r: Option<String>)
    ensures
        match r {
            Some(s) => stripped(p@, prefix@) == Some(s@),
            None => stripped(p@, prefix@) is None,
        },
{
    Path::new(p).strip_prefix(prefix).ok().map(|s| s.to_string_lossy().into_owned())
}

/// Relies on `Path::file_name`: the last component, unless the path ends
/// in `..` or is a root.
#[verifier::external_body]
pub(crate) fn file_name(p: &str) -> (r: Option<String>)
    ensures
        match r {
            Some(s) => file_name_of(p@) == Some(s@),
            None => file_name_of(p@) is None,
        },
{
    Path::new(p).file_name().map(|s| s.to_string_lossy().into_owned())
}

/// Relies on `Path::parent`: the path without its last component, unless
/// it is a root or empty.
#[verifier::external_body]
pub(crate) fn parent(p: &str) -> (r: Option<String>)
    ensures
        match r {
            Some(s) => parent_of(p@) == Some(s@),
            None => parent_of(p@) is None,
        },
{
    Path::new(p).parent().map(|s| s.to_string_lossy().into_owned())
}

} // verus!
