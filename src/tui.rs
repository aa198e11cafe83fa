//! The interactive board engine.

pub mod date;
pub mod text;
pub mod state;
pub mod cursor;
pub mod input;
pub mod engine;
