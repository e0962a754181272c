//! What a command line asks for: the subcommand and its arguments.
use vstd::prelude::*;

use crate::config::LinkStrategy;
use crate::text::lit;

verus! {

/// The build mode, which selects a profile and a directory of the target layout.
#[derive(Clone, Copy, Debug, PartialEq, Eq, Structural)]
pub enum BuildModeCli {
    Development,
    Release,
}

/// The directory name of a build mode.
pub open spec fn mode_name(m: BuildModeCli) -> Seq<char> {
    match m {
        BuildModeCli::Development => "development"@,
        BuildModeCli::Release => "release"@,
    }
}

impl BuildModeCli {
    pub fn to_string(&self) -> (r: String)
        ensures
            r@ == mode_name(*self),
    {
        match self {
            BuildModeCli::Development => lit("development"),
            BuildModeCli::Release => lit("release"),
        }
    }
}

/// Arguments of `init`.
pub struct InitArgs {
    pub path: String,
    /// Initializes the project as an executable (binary).
    pub executable: bool,
    /// Initializes the project as a static library.
    pub s_lib: bool,
    /// Initializes the project as a dynamic library.
    pub d_lib: bool,
    /// Initializes the project without a git repository.
    pub no_git: bool,
}

/// The strategy the flags of `init` select: the one flag given, or an
/// executable when none or more than one is given.
pub open spec fn selected_strategy(executable: bool, s_lib: bool, d_lib: bool) -> LinkStrategy {
    if !executable && s_lib && !d_lib {
        LinkStrategy::StaticLibrary
    } else if !executable && !s_lib && d_lib {
        LinkStrategy::DynamicLibrary
    } else {
        LinkStrategy::Executable
    }
}

impl InitArgs {
    pub fn link_strategy(&self) -> (r: LinkStrategy)
        ensures
            r == selected_strategy(self.executable, self.s_lib, self.d_lib),
    {
        match (self.executable, self.s_lib, self.d_lib) {
            (true, false, false) => LinkStrategy::Executable,
            (false, true, false) => LinkStrategy::StaticLibrary,
            (false, false, true) => LinkStrategy::DynamicLibrary,
            _ => LinkStrategy::Executable,
        }
    }
}

/// Arguments of `clean`.
pub struct CleanArgs {
    pub path: String,
    /// Clean the dependencies directory too.
    pub deps_too: bool,
}

/// Where `clone` takes a project from.
pub enum CloneSource {
    Git { url: String, branch: String },
    FileSystem { from: String },
}

/// Arguments of `clone`.
pub struct CloneArgs {
    pub path: String,
    pub source: CloneSource,
}

/// Arguments of `compdb`.
pub struct CompilationDatabaseArgs {
    pub path: String,
}

/// The toolchain a build selects.
pub enum BuildToolchain {
    /// The default toolchain.
    Default,
    /// A toolchain declared in the configuration, by name.
    Named { name: String },
    /// A toolchain given in full on the command line.
    Custom {
        compiler: String,
        archiver: String,
        compiler_flags: Vec<String>,
        linker_flags: Vec<String>,
    },
}

/// Arguments of `build` and `run`.
pub struct BuildArgs {
    pub path: String,
    pub subcommand: Option<BuildToolchain>,
    /// Builds the project in release mode (optimized).
    pub release: bool,
    /// Builds the project in development mode (debug info).
    pub dev: bool,
}

/// Release when only `release` is set; development otherwise.
pub open spec fn selected_mode(release: bool, dev: bool) -> BuildModeCli {
    if release && !dev {
        BuildModeCli::Release
    } else {
        BuildModeCli::Development
    }
}

impl BuildArgs {
    pub fn build_mode(&self) -> (r: BuildModeCli)
        ensures
            r == selected_mode(self.release, self.dev),
    {
        match (self.release, self.dev) {
            (true, false) => BuildModeCli::Release,
            (false, true) => BuildModeCli::Development,
            _ => BuildModeCli::Development,
        }
    }
}

/// A subcommand with its arguments.
pub enum CommandCli {
    /// Clone a project
    Clone(CloneArgs),
    /// Initializes a new project.
    Init(InitArgs),
    /// Cleans the project build directory and optionally dependencies directory.
    Clean(CleanArgs),
    /// Builds the project.
    Build(BuildArgs),
    /// Builds and runs the project.
    Run(BuildArgs),
    /// Generates a compile_commands.json for the project.
    Compdb(CompilationDatabaseArgs),
}

/// A whole command line.
pub struct CLI {
    pub command: CommandCli,
}

} // verus!
