//! What the library asks of the platform it runs on. Every function here is
//! trusted: its contract is believed, not proved.

use crate::text::owned_option_view;
use vstd::prelude::*;

verus! {

/// The final component of a path as `std::path::Path::file_name` finds it on
/// the platform at hand, or `None` where the path has none.
pub uninterp spec fn final_component(path: Seq<char>) -> Option<Seq<char>>;

/// Whether `std::path::Path::is_absolute` holds of a path on the platform at hand.
pub uninterp spec fn absolute_path(path: Seq<char>) -> bool;

/// Trusted: calls `std::path::Path::file_name`, whose result depends on the
/// path's text alone. Nothing is claimed of which component it is.
#[verifier::external_body]
pub(crate) fn file_name_of(path: &str) -> (name: Option<String>)
    ensures
        owned_option_view(name) == final_component(path@),
{
    let name = std::path::Path::new(path).file_name()?;
    Some(name.to_str()?.to_string())
}

/// Trusted: calls `std::path::Path::is_absolute`, whose result depends on the
/// path's text alone.
#[verifier::external_body]
pub(crate) fn is_absolute(path: &str) -> (b: bool)
    ensures
        b == absolute_path(path@),
{
    std::path::Path::new(path).is_absolute()
}

/// Trusted: calls `is_executable::is_executable`, which asks the file system
/// whether there is a file at `path` that may be run. The answer is the file
/// system's of the moment, so nothing is claimed of it.
#[verifier::external_body]
pub(crate) fn may_execute(path: &str) -> bool {
    is_executable::is_executable(path)
}

/// Trusted: calls `termsize::get`, which asks the terminal behind standard
/// output for its size, and hands on the number of rows; `None` where there
/// is no terminal. The answer is the terminal's of the moment, so nothing is
/// claimed of it.
#[verifier::external_body]
pub(crate) fn terminal_rows() -> Option<u16> {
    match termsize::get() {
        Some(size) => Some(size.rows),
        None => None,
    }
}

} // verus!
