//! The backend's data directory and database file, derived from the
//! platform's local-data convention. The directory holds the backend's
//! persisted storage, opaque to the supervisor.

use vstd::prelude::*;
use vstd::string::StringExecFns;

verus! {

/// The data directory derived from the platform's local-data root
/// `base` — the current directory when the platform offers none.
pub open spec fn data_dir_chars(base: Option<Seq<char>>) -> Seq<char> {
    (match base {
        Some(b) => b,
        None => "."@,
    }) + "/pin-up-ai"@
}

/// The database file inside the data directory.
pub open spec fn db_path_chars(base: Option<Seq<char>>) -> Seq<char> {
    data_dir_chars(base) + "/pinup.db"@
}

/// The character sequences of an optional platform root.
pub open spec fn root_chars(base: Option<String>) -> Option<Seq<char>> {
    match base {
        Some(b) => Some(b@),
        None => None,
    }
}

/// Relies on dirs::data_local_dir: the platform's local-data root, if
/// the platform defines one. The result depends on the machine and its
/// environment, so nothing is promised of its value.
#[verifier::external_body]
fn local_data_root() -> (r: Option<String>) {
    dirs::data_local_dir().map(|p| p.to_string_lossy().to_string())
}

/// The data directory under a given platform root.
pub fn data_dir_from(base: Option<String>) -> (r: String)
    ensures
        r@ == data_dir_chars(root_chars(base)),
{
    let root = match base {
        Some(b) => b,
        None => ".".to_owned(),
    };
    root.concat("/pin-up-ai")
}

/// The backend's data directory on this machine: the platform
/// local-data root (or the current directory) plus the application's
/// own segment. Pure computation over the platform convention; nothing
/// is created on disk.
pub fn data_dir() -> (r: String)
    ensures
        exists|b: Option<Seq<char>>| r@ == data_dir_chars(b),
{
    let base = local_data_root();
    let ghost root = root_chars(base);
    let r = data_dir_from(base);
    proof {
        assert(r@ == data_dir_chars(root));
    }
    r
}

/// The backend's database file on this machine, inside `data_dir`.
pub fn db_path() -> (r: String)
    ensures
        exists|b: Option<Seq<char>>| r@ == db_path_chars(b),
{
    let dir = data_dir();
    let ghost root = choose|b: Option<Seq<char>>| dir@ == data_dir_chars(b);
    let r = dir.concat("/pinup.db");
    proof {
        assert(r@ == db_path_chars(root));
    }
    r
}

} // verus!
