//! The extension of a path, which the standard library works out.

use vstd::prelude::*;

verus! {

/// The extension that `std::path::Path::extension` finds in a path, as text;
/// `None` where it finds none.
pub uninterp spec fn extension_of(path: Seq<char>) -> Option<Seq<char>>;

/// `extension` stands in `path` right behind a dot and holds no dot itself.
pub open spec fn follows_dot(path: Seq<char>, extension: Seq<char>) -> bool {
    &&& !extension.contains('.')
    &&& exists|i: int|
        0 <= i && i + 1 + extension.len() <= path.len() && #[trigger] path[i] == '.'
            && path.subrange(i + 1, i + 1 + extension.len()) == extension
}

/// Calls `std::path::Path::extension` on `path`.
///
/// Trusted, not proved: the result is a function of the path's text alone,
/// named `extension_of`; and an extension, where there is one, is the part of
/// the path's last component after that component's last dot, so it stands
/// in the path right behind a dot and holds none.
#[verifier::external_body]
pub(crate) fn path_extension(path: &str) -> (extension: Option<String>)
    ensures
        extension.deep_view() == extension_of(path@),
        extension matches Some(e) ==> follows_dot(path@, e@),
{
    std::path::Path::new(path).extension().and_then(|e| e.to_str()).map(|e| e.to_string())
}

} // verus!
