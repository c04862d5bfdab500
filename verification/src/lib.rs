//! Argument handling for an editor's typed commands.
use vstd::prelude::*;

pub mod text;
pub mod command_line;
pub mod args;
pub mod alias;
pub mod dap;
pub mod copilot;
pub mod engine;
pub mod scripting;
pub mod editing;
pub mod language;
pub mod whitespace;

verus! {
} // verus!
