//! Where the entries are kept: in the directory `pls` of the user's data
//! directory.

use std::path::PathBuf;
use vstd::prelude::*;

verus! {

/// `std::path::PathBuf`, which is carried through and never looked into.
#[verifier::external_type_specification]
#[verifier::external_body]
pub struct ExPathBuf(PathBuf);

/// A directory by its name in another: `name` in `base`.
#[derive(Debug, PartialEq, Eq)]
pub struct Location {
    pub base: PathBuf,
    pub name: String,
}

/// The name of the directory of the entries.
pub open spec fn directory_name() -> Seq<char> {
    "pls"@
}

/// `dirs_next::data_dir`: the user's data directory, as the platform and the
/// environment of the process give it, or `None` where they give none.
/// Nothing is claimed of the path.
#[verifier::external_body]
fn user_data_dir() -> (r: Option<PathBuf>) {
    dirs_next::data_dir()
}

/// The directory of the entries under a data directory: the one named `pls`
/// in it. Without a data directory there is none.
pub fn pls_path_under(data_dir: Option<PathBuf>) -> (r: Option<Location>)
    ensures
        r is Some <==> data_dir is Some,
        r is Some ==> r->0.base == data_dir->0 && r->0.name@ == directory_name(),
{
    match data_dir {
        Some(base) => Some(Location { base, name: "pls".to_owned() }),
        None => None,
    }
}

/// The directory of the entries of this user: `pls` in the user's data
/// directory, or `None` where the user has no data directory.
pub fn get_pls_path() -> (r: Option<Location>)
    ensures
        r is Some ==> r->0.name@ == directory_name(),
{
    pls_path_under(user_data_dir())
}

} // verus!
