//! The subcommands of the command line.

pub mod add;
pub mod list;

use vstd::prelude::*;

verus! {

/// A subcommand.
pub enum Cmd {
    Add(add::Args),
    List(list::Args),
}

} // verus!
