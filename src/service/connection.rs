//! Database addresses.

use vstd::prelude::*;
use crate::tui::text::concat;

verus! {

/// The SQLite address of a database file, opened for reading and writing and
/// created when missing.
pub fn sqlite_url(path: &str) -> (r: String)
    ensures
        r@ == "sqlite://"@ + path@ + "?mode=rwc"@,
{
    let head = concat("sqlite://", path);
    concat(head.as_str(), "?mode=rwc")
}

} // verus!
