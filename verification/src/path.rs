//! Resolution of the database file's location inside the application's
//! data directory.
//!
//! Determining the platform's data directory and creating it on disk are
//! side effects of the surrounding application; this module holds the pure
//! part: joining the directory with the fixed file name of the database.

use vstd::prelude::*;
use vstd::string::StringExecFns;

verus! {

/// The fixed file name of the database inside the data directory.
pub fn db_file_name() -> (r: &'static str)
    ensures
        r@ == "core.sqlite3"@,
{
    "core.sqlite3"
}

/// The full path of the database file inside the data directory `dir`:
/// the directory, a `/` separator, and the fixed file name.
pub fn db_path(dir: &str) -> (r: String)
    ensures
        r@ == dir@ + "/"@ + "core.sqlite3"@,
{
    let mut s = dir.to_owned();
    s.append("/");
    s.append(db_file_name());
    s
}

} // verus!
