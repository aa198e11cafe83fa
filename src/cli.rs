use vstd::prelude::*;

verus! {

/// The command line: an optional subcommand; without one the board opens.
pub struct Cli {
    pub cmd: Option<crate::cmd::Cmd>,
}

} // verus!
