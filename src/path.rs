use vstd::prelude::*;

verus! {

/// The final component of a path, as std's `Path::file_name` finds it; none
/// where the path ends in `..` or has no component.
pub uninterp spec fn file_name_of(path: Seq<char>) -> Option<Seq<char>>;

/// Relies on std's `Path::file_name`: the final component of the path, which
/// depends on the path's text alone. A component of a path given as `str` is
/// valid UTF-8, so the conversion to `String` keeps it whole.
#[verifier::external_body]
pub(crate) fn file_name(path: &str) -> (r: Option<String>)
    ensures
        match r {
            Some(k) => file_name_of(path@) == Some(k@),
            None => file_name_of(path@) is None,
        },
{
    match std::path::Path::new(path).file_name() {
        Some(name) => Some(name.to_string_lossy().into_owned()),
        None => None,
    }
}

} // verus!
