//! The errors a build can fail with; each names the entity in play.
use vstd::prelude::*;

verus! {

pub enum BuildError {
    /// A configuration file could not be read or parsed.
    Configuration { path: String, detail: String },
    /// A dependency names a registry that its configuration does not declare.
    RegistryNotFound { dependency: String, registry: String },
    /// The build selects a toolchain that the configuration does not declare.
    ToolchainNotFound { name: String },
    /// Fetching a dependency's sources failed.
    Transport { dependency: String, detail: String },
    /// An external process exited unsuccessfully; `stderr` is what it printed.
    Process { program: String, stderr: String },
    /// A directory or file could not be created, read or copied.
    Filesystem { path: String, detail: String },
    /// A dependency is reached again while its own dependencies are being resolved.
    CycleDetected { dependency: String },
    /// A translation unit's path has no file name to key its object by.
    NoFileName { path: String },
}

} // verus!
