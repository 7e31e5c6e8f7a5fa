//! Native shell of a commutative-diagram editor: command-line argument
//! parsing, macro-source resolution, a write-once session state, and the
//! decision logic of the command surface exposed to the UI layer.
//!
//! Everything that decides or computes lives here, verified; reading files,
//! writing files and exiting the process are performed by the surrounding
//! binary, which follows the plans these functions return.

pub mod args;
pub mod chars;
pub mod commands;
pub mod config;
pub mod session;
