//! Building blocks of a launcher that runs commands inside a private mount
//! namespace in which a self-contained package store is bound to `/nix`.
//!
//! Everything here is a function from plain values to plain values: the
//! caller looks at the file system and at the process table, the library
//! decides what that means and what has to happen next.
//!
//! - `resolve` tells from the path that the launcher was run as which
//!   environment and which command are meant.
//! - `cli` reads the launcher's arguments.
//! - `sandbox` builds the command line that runs a command in the sandbox.
//! - `exit` turns the command's end into the launcher's exit code.
//! - `profile` finds the `bin` directory of the active profile.
//! - `sync` plans how to bring the environment's `bin` in step with it.
//! - `directory` proves that the plan does so, and that it can be carried
//!   out.
//! - `paths` and `text` hold the path algebra and string comparisons that
//!   the others build on.

pub mod cli;
pub mod directory;
pub mod exit;
pub mod paths;
pub mod profile;
pub mod resolve;
pub mod sandbox;
pub mod sync;
pub mod text;
