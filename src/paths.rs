use vstd::prelude::*;

verus! {

/// The parent of a path, as `std::path::Path::parent` gives it: the path
/// without its last component, or `None` where there is no parent.
pub uninterp spec fn parent_of(path: Seq<char>) -> Option<Seq<char>>;

/// Relies on `std::path::Path::parent`: the result depends on the path's text
/// alone, and it is `None` for the empty path and for the root `/`. A parent is
/// a prefix of the path, so it converts back to text without loss.
#[verifier::external_body]
pub(crate) fn path_parent(path: &String) -> (r: Option<String>)
    ensures
        match r {
            Some(p) => parent_of(path@) == Some(p@),
            None => parent_of(path@) is None,
        },
        path@.len() == 0 ==> r is None,
        path@ == seq!['/'] ==> r is None,
{
    std::path::Path::new(path).parent().map(|p| p.to_string_lossy().into_owned())
}

} // verus!
