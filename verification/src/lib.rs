//! Decisions of a desktop backend that stores CSV master files and profile
//! icons: which directories to use, what to write where, and what to report.
//! The library touches no file itself; it hands out plans that name each
//! file-system step, and says what the caller is told once they were run.

use vstd::prelude::*;
use vstd::string::StringExecFns;

pub mod codec;
pub mod csv;
pub mod error;
pub mod icon;
pub mod location;
pub mod plan;
pub mod resolver;
pub mod text;

verus! {

/// The build flavour the backend runs in.
#[derive(Clone, Copy, Debug, PartialEq, Eq, Structural)]
pub enum BuildMode {
    /// Files are mirrored into the project tree next to the executable.
    Development,
    /// Only the per-user application-data directory is used.
    Production,
}

/// The greeting for `name`.
pub fn greet(name: &str) -> (r: String)
    ensures
        r@ == "Hello, "@ + name@ + "! Welcome to Tauri!"@,
{
    String::from_str("Hello, ").concat(name).concat("! Welcome to Tauri!")
}

} // verus!
