//! A weekly planning board: a seven-day calendar window, a board of task
//! columns, focus cursors and a modal, chorded keyboard state machine.

pub mod cli;
pub mod cmd;
pub mod service;
pub mod tui;

pub use cli::Cli;
