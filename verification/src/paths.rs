//! Joining a directory and the name of one of its entries.

use vstd::prelude::*;

verus! {

/// The path that the path join of the platform the crate is built for
/// gives for the entry `name` under the directory `base`.
pub uninterp spec fn joined_path(base: Seq<char>, name: Seq<char>) -> Seq<char>;

/// Trusted: calls `std::path::Path::join` on `base` with `name`. The contract
/// only gives the outcome a name, `joined_path`; nothing is claimed about the
/// separator or about absolute names. Both arguments are valid UTF-8, so the
/// conversion back to a `String` loses nothing.
#[verifier::external_body]
pub(crate) fn join_path(base: &str, name: &str) -> (joined: String)
    ensures
        joined@ == joined_path(base@, name@),
{
    std::path::Path::new(base).join(name).to_string_lossy().into_owned()
}

} // verus!
