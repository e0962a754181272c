//! Platform-conventional artifact names. The platform is the operating-system
//! family of the target triple that the compiler reports.
use vstd::prelude::*;

use std::str::FromStr;

use crate::text::{cat, cat3, lit};

verus! {

/// The operating system of a target triple, as far as naming artifacts
/// tells them apart.
#[derive(Clone, Copy, Debug, PartialEq, Eq, Structural)]
pub enum TargetOs {
    Linux,
    Darwin,
    MacOSX,
    Windows,
    Other,
}

/// What target-lexicon's triple parser reads as the operating system of a
/// triple; `None` where it refuses the triple.
pub uninterp spec fn target_os_of(triple: Seq<char>) -> Option<TargetOs>;

/// Relies on `target_lexicon::Triple::from_str`: parses a target triple and
/// reports its `operating_system` field; the result depends on the text alone.
#[verifier::external_body]
fn parse_target_os(triple: &str) -> (r: Option<TargetOs>)
    ensures
        r == target_os_of(triple@),
{
    match target_lexicon::Triple::from_str(triple) {
        Ok(t) => Some(
            match t.operating_system {
                target_lexicon::OperatingSystem::Linux => TargetOs::Linux,
                target_lexicon::OperatingSystem::Darwin => TargetOs::Darwin,
                target_lexicon::OperatingSystem::MacOSX { .. } => TargetOs::MacOSX,
                target_lexicon::OperatingSystem::Windows => TargetOs::Windows,
                _ => TargetOs::Other,
            },
        ),
        Err(_) => None,
    }
}

/// The naming convention of an operating-system family.
#[derive(Clone, Copy, Debug, PartialEq, Eq, Structural)]
pub enum Platform {
    Linux,
    MacOs,
    Windows,
}

/// The family of a parsed operating system; unparsed or unrecognized ones
/// follow the Linux convention.
pub open spec fn family(os: Option<TargetOs>) -> Platform {
    match os {
        Some(TargetOs::Darwin) | Some(TargetOs::MacOSX) => Platform::MacOs,
        Some(TargetOs::Windows) => Platform::Windows,
        _ => Platform::Linux,
    }
}

impl Platform {
    pub fn from_os(os: Option<TargetOs>) -> (r: Platform)
        ensures
            r == family(os),
    {
        match os {
            Some(TargetOs::Darwin) | Some(TargetOs::MacOSX) => Platform::MacOs,
            Some(TargetOs::Windows) => Platform::Windows,
            _ => Platform::Linux,
        }
    }

    /// The platform of the triple a compiler reports (with `-dumpmachine`).
    pub fn for_triple(triple: &str) -> (r: Platform)
        ensures
            r == family(target_os_of(triple@)),
    {
        Platform::from_os(parse_target_os(triple))
    }
}

/// A kind of artifact.
#[derive(Clone, Copy, Debug, PartialEq, Eq, Structural)]
pub enum Extension {
    Object,
    Executable,
    StaticLibrary,
    DynamicLibrary,
}

/// The file-name suffix (without its dot) of a kind on a platform.
pub open spec fn suffix(kind: Extension, platform: Platform) -> Option<Seq<char>> {
    match platform {
        Platform::Linux => match kind {
            Extension::Object => Some("o"@),
            Extension::Executable => None,
            Extension::StaticLibrary => Some("a"@),
            Extension::DynamicLibrary => Some("so"@),
        },
        Platform::MacOs => match kind {
            Extension::Object => Some("o"@),
            Extension::Executable => None,
            Extension::StaticLibrary => Some("a"@),
            Extension::DynamicLibrary => Some("dylib"@),
        },
        Platform::Windows => match kind {
            Extension::Object => Some("obj"@),
            Extension::Executable => Some("exe"@),
            Extension::StaticLibrary => Some("lib"@),
            Extension::DynamicLibrary => Some("dll"@),
        },
    }
}

/// Libraries are prefixed `lib`; objects and executables are not.
pub open spec fn prefix(kind: Extension) -> Seq<char> {
    match kind {
        Extension::StaticLibrary | Extension::DynamicLibrary => "lib"@,
        _ => Seq::empty(),
    }
}

/// The file name of an artifact of `kind` named `name` on `platform`.
pub open spec fn artifact_name(kind: Extension, platform: Platform, name: Seq<char>) -> Seq<char> {
    match suffix(kind, platform) {
        Some(e) => prefix(kind) + name + "."@ + e,
        None => prefix(kind) + name,
    }
}

impl Extension {
    pub fn linux_extension(&self) -> (r: Option<String>)
        ensures
            r matches Some(e) ==> suffix(*self, Platform::Linux) == Some(e@),
            r is None ==> suffix(*self, Platform::Linux) is None,
    {
        match self {
            Extension::Object => Some(lit("o")),
            Extension::Executable => None,
            Extension::StaticLibrary => Some(lit("a")),
            Extension::DynamicLibrary => Some(lit("so")),
        }
    }

    pub fn macos_extension(&self) -> (r: Option<String>)
        ensures
            r matches Some(e) ==> suffix(*self, Platform::MacOs) == Some(e@),
            r is None ==> suffix(*self, Platform::MacOs) is None,
    {
        match self {
            Extension::Object => Some(lit("o")),
            Extension::Executable => None,
            Extension::StaticLibrary => Some(lit("a")),
            Extension::DynamicLibrary => Some(lit("dylib")),
        }
    }

    pub fn windows_extension(&self) -> (r: Option<String>)
        ensures
            r matches Some(e) ==> suffix(*self, Platform::Windows) == Some(e@),
            r is None ==> suffix(*self, Platform::Windows) is None,
    {
        match self {
            Extension::Object => Some(lit("obj")),
            Extension::Executable => Some(lit("exe")),
            Extension::StaticLibrary => Some(lit("lib")),
            Extension::DynamicLibrary => Some(lit("dll")),
        }
    }

    /// The suffix of this kind on a platform.
    pub fn for_platform(&self, platform: Platform) -> (r: Option<String>)
        ensures
            r matches Some(e) ==> suffix(*self, platform) == Some(e@),
            r is None ==> suffix(*self, platform) is None,
    {
        match platform {
            Platform::Linux => self.linux_extension(),
            Platform::MacOs => self.macos_extension(),
            Platform::Windows => self.windows_extension(),
        }
    }

    /// The suffix of this kind for the platform of a target triple.
    pub fn for_triple(&self, target_triple: &str) -> (r: Option<String>)
        ensures
            r matches Some(e) ==> suffix(*self, family(target_os_of(target_triple@))) == Some(
                e@,
            ),
            r is None ==> suffix(*self, family(target_os_of(target_triple@))) is None,
    {
        self.for_platform(Platform::for_triple(target_triple))
    }

    /// The conventional file name of an artifact of this kind named `name`.
    pub fn file_name(&self, name: &str, platform: Platform) -> (r: String)
        ensures
            r@ == artifact_name(*self, platform, name@),
    {
        let base = match self {
            Extension::StaticLibrary | Extension::DynamicLibrary => cat("lib", name),
            _ => lit(name),
        };
        match self.for_platform(platform) {
            Some(e) => cat3(base.as_str(), ".", e.as_str()),
            None => base,
        }
    }
}

} // verus!
