//! The error taxonomy of the library. Errors coming from outside code are
//! carried as their messages, so every variant is a plain value.

use vstd::prelude::*;

verus! {

/// Everything that can go wrong while detecting, building or packaging.
#[derive(Debug)]
pub enum Error {
    /// A filesystem operation failed; the underlying error's text.
    Io { message: String },
    /// A configuration file could not be understood.
    Config { message: String },
    /// An engine's external tool could not be launched at all.
    CommandExecution { engine: String, message: String },
    /// The external tool ran and exited with a nonzero status.
    BuildFailed { project_path: String },
    /// An engine could not scan at all (reserved: per-entry scan errors are
    /// skipped, not raised).
    DetectionFailed { engine_name: String },
    /// A configured engine path does not point at an installation.
    EngineNotFound { path: String },
    /// The project-local configuration directory already exists.
    AlreadyInitialized { path: String },
}

} // verus!
