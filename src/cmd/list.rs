use vstd::prelude::*;

verus! {

/// The options of the listing subcommand.
pub struct Args {
    /// List the backlog rather than the scheduled tasks.
    pub some_day: bool,
    /// Include completed tasks.
    pub done: bool,
}

} // verus!
