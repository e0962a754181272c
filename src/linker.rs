//! The linker: turns the object files into the one final artifact that the
//! output strategy asks for.
use vstd::prelude::*;

use crate::command::{push_all, push_arg, CommandLine};
use crate::config::{LinkStrategy, Toolchain, ToolchainView};
use crate::extension::{artifact_name, suffix, Extension, Platform};
use crate::path::{join, joined};
use crate::text::views;

verus! {

/// The artifact kind a strategy produces.
pub open spec fn strategy_kind(s: LinkStrategy) -> Extension {
    match s {
        LinkStrategy::Executable => Extension::Executable,
        LinkStrategy::StaticLibrary => Extension::StaticLibrary,
        LinkStrategy::DynamicLibrary => Extension::DynamicLibrary,
    }
}

/// Where the final artifact goes.
pub open spec fn output_file(
    s: LinkStrategy,
    output_dir: Seq<char>,
    name: Seq<char>,
    platform: Platform,
) -> Seq<char> {
    joined(output_dir, artifact_name(strategy_kind(s), platform, name))
}

/// The archiver makes static libraries; the compiler links everything else.
pub open spec fn link_program(s: LinkStrategy, t: ToolchainView) -> Seq<char> {
    match s {
        LinkStrategy::StaticLibrary => t.archiver,
        _ => t.compiler,
    }
}

/// The arguments of the link step: an executable takes `-o <output>`, a
/// dynamic library `-shared -o <output>`, both then the linker flags; a static
/// archive takes `rcs <output>`. The object files come last.
pub open spec fn link_args(
    s: LinkStrategy,
    t: ToolchainView,
    output: Seq<char>,
    objects: Seq<Seq<char>>,
) -> Seq<Seq<char>> {
    match s {
        LinkStrategy::Executable => seq!["-o"@, output] + views(t.linker_flags) + objects,
        LinkStrategy::StaticLibrary => seq!["rcs"@, output] + objects,
        LinkStrategy::DynamicLibrary => seq!["-shared"@, "-o"@, output] + views(t.linker_flags)
            + objects,
    }
}

/// The invocation that produces the final artifact, and the artifact's path.
pub struct LinkStep {
    pub command: CommandLine,
    pub output: String,
}

/// Links with one toolchain.
pub struct Linker {
    pub toolchain: Toolchain,
}

impl Linker {
    pub fn new(toolchain: Toolchain) -> (r: Linker)
        ensures
            r.toolchain == toolchain,
    {
        Linker { toolchain }
    }

    /// The link step for `object_files`, producing the artifact named
    /// `output_name` in `output_path`.
    pub fn link(
        &self,
        link_strategy: LinkStrategy,
        object_files: &Vec<String>,
        output_path: &str,
        output_name: &str,
        platform: Platform,
    ) -> (r: LinkStep)
        ensures
            r.output@ == output_file(link_strategy, output_path@, output_name@, platform),
            r.command.program@ == link_program(link_strategy, self.toolchain@),
            r.command@.args == link_args(
                link_strategy,
                self.toolchain@,
                r.output@,
                views(object_files@),
            ),
    {
        let kind = match link_strategy {
            LinkStrategy::Executable => Extension::Executable,
            LinkStrategy::StaticLibrary => Extension::StaticLibrary,
            LinkStrategy::DynamicLibrary => Extension::DynamicLibrary,
        };
        let file = kind.file_name(output_name, platform);
        let output = join(output_path, file.as_str());
        let mut args: Vec<String> = Vec::new();
        assert(views(args@) =~= Seq::<Seq<char>>::empty());
        let program = match link_strategy {
            LinkStrategy::Executable => {
                push_arg(&mut args, "-o");
                push_arg(&mut args, output.as_str());
                push_all(&mut args, &self.toolchain.linker_flags);
                self.toolchain.compiler.clone()
            },
            LinkStrategy::StaticLibrary => {
                push_arg(&mut args, "rcs");
                push_arg(&mut args, output.as_str());
                self.toolchain.archiver.clone()
            },
            LinkStrategy::DynamicLibrary => {
                push_arg(&mut args, "-shared");
                push_arg(&mut args, "-o");
                push_arg(&mut args, output.as_str());
                push_all(&mut args, &self.toolchain.linker_flags);
                self.toolchain.compiler.clone()
            },
        };
        push_all(&mut args, object_files);
        let r = LinkStep { command: CommandLine { program, args }, output };
        assert(r.command@.args =~= link_args(
            link_strategy,
            self.toolchain@,
            r.output@,
            views(object_files@),
        ));
        r
    }
}

/// Naming by strategy: a static library named `name` is
/// `lib<name>.<static suffix of the platform>`; an executable carries no
/// `lib` prefix, with `.exe` on Windows and no suffix elsewhere.
pub proof fn lemma_strategy_naming(output_dir: Seq<char>, name: Seq<char>, platform: Platform)
    ensures
        output_file(LinkStrategy::StaticLibrary, output_dir, name, platform) == joined(
            output_dir,
            "lib"@ + name + "."@ + suffix(Extension::StaticLibrary, platform)->0,
        ),
        output_file(LinkStrategy::Executable, output_dir, name, Platform::Windows) == joined(
            output_dir,
            name + "."@ + "exe"@,
        ),
        platform != Platform::Windows ==> output_file(
            LinkStrategy::Executable,
            output_dir,
            name,
            platform,
        ) == joined(output_dir, name),
{
    assert(Seq::<char>::empty() + name =~= name);
    assert(Seq::<char>::empty() + name + "."@ + "exe"@ =~= name + "."@ + "exe"@);
}

} // verus!
