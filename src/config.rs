//! The project configuration: identity, output strategy, registries,
//! dependencies, toolchains and optimization profiles.
use vstd::prelude::*;

use crate::cli::{BuildModeCli, BuildToolchain};
use crate::error::BuildError;
use crate::names::{first_named, find_named, has_name};
use crate::text::{clone_strings, lit};

verus! {

/// How the project's objects are linked into the final artifact.
#[derive(Clone, Copy, Debug, PartialEq, Eq, Structural)]
pub enum LinkStrategy {
    Executable,
    StaticLibrary,
    DynamicLibrary,
}

/// The YAML tag that names a strategy in a configuration file.
pub open spec fn yaml_tag(s: LinkStrategy) -> Seq<char> {
    match s {
        LinkStrategy::Executable => "!Executable"@,
        LinkStrategy::StaticLibrary => "!StaticLibrary"@,
        LinkStrategy::DynamicLibrary => "!DynamicLibrary"@,
    }
}

impl LinkStrategy {
    pub fn to_yaml_tag(&self) -> (r: String)
        ensures
            r@ == yaml_tag(*self),
    {
        match self {
            LinkStrategy::Executable => lit("!Executable"),
            LinkStrategy::StaticLibrary => lit("!StaticLibrary"),
            LinkStrategy::DynamicLibrary => lit("!DynamicLibrary"),
        }
    }

    /// Position-independent code is requested only for a dynamic library.
    pub fn needs_pic(&self) -> (r: bool)
        ensures
            r == (*self == LinkStrategy::DynamicLibrary),
    {
        match self {
            LinkStrategy::DynamicLibrary => true,
            _ => false,
        }
    }
}

/// Identity of a project and its declared output strategy.
pub struct Project {
    pub name: String,
    pub version: String,
    pub link_strategy: LinkStrategy,
}

/// An optimization level, as the compiler's `-O` family names them.
#[derive(Clone, Copy, Debug, PartialEq, Eq, Structural)]
pub enum OptimizationLevel {
    /// No optimization flag is passed; a configuration file writes it `None`.
    NoFlag,
    O,
    O1,
    O2,
    O3,
    O0,
    Os,
    Ofast,
    Og,
    Oz,
}

/// The compiler flag of a level; `None` passes no optimization flag at all.
pub open spec fn gcc_flag(level: OptimizationLevel) -> Option<Seq<char>> {
    match level {
        OptimizationLevel::NoFlag => Option::None,
        OptimizationLevel::O => Some("-O"@),
        OptimizationLevel::O1 => Some("-O1"@),
        OptimizationLevel::O2 => Some("-O2"@),
        OptimizationLevel::O3 => Some("-O3"@),
        OptimizationLevel::O0 => Some("-O0"@),
        OptimizationLevel::Os => Some("-Os"@),
        OptimizationLevel::Ofast => Some("-Ofast"@),
        OptimizationLevel::Og => Some("-Og"@),
        OptimizationLevel::Oz => Some("-Oz"@),
    }
}

impl OptimizationLevel {
    pub fn as_gcc_flag(&self) -> (r: Option<&'static str>)
        ensures
            r matches Some(f) ==> gcc_flag(*self) == Some(f@),
            r is None ==> gcc_flag(*self) is None,
    {
        match self {
            OptimizationLevel::NoFlag => Option::None,
            OptimizationLevel::O => Some("-O"),
            OptimizationLevel::O1 => Some("-O1"),
            OptimizationLevel::O2 => Some("-O2"),
            OptimizationLevel::O3 => Some("-O3"),
            OptimizationLevel::O0 => Some("-O0"),
            OptimizationLevel::Os => Some("-Os"),
            OptimizationLevel::Ofast => Some("-Ofast"),
            OptimizationLevel::Og => Some("-Og"),
            OptimizationLevel::Oz => Some("-Oz"),
        }
    }
}

/// An optimization profile.
#[derive(Clone, Copy, Debug, PartialEq, Eq, Structural)]
pub struct Profile {
    pub optimization_level: OptimizationLevel,
}

/// The profiles a configuration may declare, one per build mode.
#[derive(Clone, Copy, Debug, PartialEq, Eq, Structural)]
pub struct Profiles {
    pub release: Option<Profile>,
    pub development: Option<Profile>,
}

/// Where a dependency's sources live.
pub enum Registry {
    /// A remote version-controlled source: its address and the branch to check out.
    Git { url: String, branch: String },
    /// A local directory holding one subdirectory per dependency.
    FileSystem(String),
}

impl Registry {
    /// A copy, field by field.
    pub fn duplicate(&self) -> (r: Registry)
        ensures
            r == *self,
    {
        match self {
            Registry::Git { url, branch } => Registry::Git { url: url.clone(), branch: branch.clone() },
            Registry::FileSystem(p) => Registry::FileSystem(p.clone()),
        }
    }
}

/// A dependency: its name and the registry it is fetched from.
pub struct Dependency {
    pub name: String,
    pub registry_name: String,
}

impl Dependency {
    /// A copy, field by field.
    pub fn duplicate(&self) -> (r: Dependency)
        ensures
            r == *self,
    {
        Dependency { name: self.name.clone(), registry_name: self.registry_name.clone() }
    }
}

/// Compiler, archiver and the extra flags handed to each.
pub struct Toolchain {
    pub compiler: String,
    pub archiver: String,
    pub compiler_flags: Vec<String>,
    pub linker_flags: Vec<String>,
}

/// A toolchain as texts and flag lists.
pub struct ToolchainView {
    pub compiler: Seq<char>,
    pub archiver: Seq<char>,
    pub compiler_flags: Seq<String>,
    pub linker_flags: Seq<String>,
}

impl View for Toolchain {
    type V = ToolchainView;

    open spec fn view(&self) -> ToolchainView {
        ToolchainView {
            compiler: self.compiler@,
            archiver: self.archiver@,
            compiler_flags: self.compiler_flags@,
            linker_flags: self.linker_flags@,
        }
    }
}

/// The toolchain used when none is named: `gcc` and `ar`, with no extra flags.
pub open spec fn default_toolchain() -> ToolchainView {
    ToolchainView {
        compiler: "gcc"@,
        archiver: "ar"@,
        compiler_flags: Seq::empty(),
        linker_flags: Seq::empty(),
    }
}

impl Default for Toolchain {
    fn default() -> (r: Toolchain)
        ensures
            r@ == default_toolchain(),
    {
        let r = Toolchain {
            compiler: lit("gcc"),
            archiver: lit("ar"),
            compiler_flags: Vec::new(),
            linker_flags: Vec::new(),
        };
        assert(r@.compiler_flags =~= Seq::<String>::empty());
        assert(r@.linker_flags =~= Seq::<String>::empty());
        r
    }
}

impl Toolchain {
    /// A copy, field by field.
    pub fn duplicate(&self) -> (r: Toolchain)
        ensures
            r@ == self@,
    {
        Toolchain {
            compiler: self.compiler.clone(),
            archiver: self.archiver.clone(),
            compiler_flags: clone_strings(&self.compiler_flags),
            linker_flags: clone_strings(&self.linker_flags),
        }
    }
}

/// The root declaration of one project or dependency. Registries and toolchains
/// are named entries; a configuration file holds each name once.
pub struct Config {
    pub project: Project,
    pub profiles: Profiles,
    pub registries: Vec<(String, Registry)>,
    pub dependencies: Vec<Dependency>,
    pub toolchains: Vec<(String, Toolchain)>,
}

/// The profile a build mode uses: the declared one, else `-O` for development
/// and `-Ofast` for release.
pub open spec fn profile_for(profiles: Profiles, mode: BuildModeCli) -> Profile {
    match mode {
        BuildModeCli::Development => match profiles.development {
            Some(p) => p,
            Option::None => Profile { optimization_level: OptimizationLevel::O },
        },
        BuildModeCli::Release => match profiles.release {
            Some(p) => p,
            Option::None => Profile { optimization_level: OptimizationLevel::Ofast },
        },
    }
}

impl Config {
    /// The profile of a build mode.
    pub fn profile(&self, build_mode: BuildModeCli) -> (r: Profile)
        ensures
            r == profile_for(self.profiles, build_mode),
    {
        match build_mode {
            BuildModeCli::Development => match self.profiles.development {
                Some(p) => p,
                Option::None => Profile { optimization_level: OptimizationLevel::O },
            },
            BuildModeCli::Release => match self.profiles.release {
                Some(p) => p,
                Option::None => Profile { optimization_level: OptimizationLevel::Ofast },
            },
        }
    }

    /// Resolves the toolchain of a build with its name: `default` when none is
    /// selected, the declared one by name, or `custom` for one given in full.
    pub fn toolchain(&self, toolchain: Option<BuildToolchain>) -> (r: Result<
        (String, Toolchain),
        BuildError,
    >)
        ensures
            match toolchain {
                Option::None | Some(BuildToolchain::Default) => r matches Ok((n, t)) && n@
                    == "default"@ && t@ == default_toolchain(),
                Some(BuildToolchain::Named { name }) => if has_name(self.toolchains@, name@) {
                    r matches Ok((n, t)) && n@ == name@ && t@ == first_named(
                        self.toolchains@,
                        name@,
                    )@
                } else {
                    r == Err::<(String, Toolchain), BuildError>(
                        BuildError::ToolchainNotFound { name },
                    )
                },
                Some(BuildToolchain::Custom { compiler, archiver, compiler_flags, linker_flags }) => {
                    r matches Ok((n, t)) && n@ == "custom"@ && t@ == (ToolchainView {
                        compiler: compiler@,
                        archiver: archiver@,
                        compiler_flags: compiler_flags@,
                        linker_flags: linker_flags@,
                    })
                },
            },
    {
        match toolchain {
            Option::None | Some(BuildToolchain::Default) => Ok((lit("default"), Toolchain::default())),
            Some(BuildToolchain::Named { name }) => {
                match find_named(&self.toolchains, name.as_str()) {
                    Some(i) => {
                        let t = self.toolchains[i].1.duplicate();
                        Ok((name, t))
                    },
                    Option::None => Err(BuildError::ToolchainNotFound { name }),
                }
            },
            Some(BuildToolchain::Custom { compiler, archiver, compiler_flags, linker_flags }) => {
                Ok((lit("custom"), Toolchain { compiler, archiver, compiler_flags, linker_flags }))
            },
        }
    }
}

} // verus!
