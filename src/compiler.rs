//! The incremental compiler: one object per translation unit, named by the
//! unit's cache key, and one compiler invocation for each object not yet built.
use vstd::prelude::*;

use crate::cache::{cache_key_of, hash};
use crate::command::{push_all, push_arg, CommandLine};
use crate::config::{gcc_flag, Profile, Toolchain, ToolchainView};
use crate::error::BuildError;
use crate::extension::{artifact_name, Extension, Platform};
use crate::layout::{dependency_cache, TargetCachePath};
use crate::path::{file_name_of, join, joined};
use crate::resolver::Artifact;
use crate::text::views;

verus! {

/// A translation unit: its path and its full content.
pub struct SourceFile {
    pub path: String,
    pub content: String,
}

/// The object file of a translation unit under `output_dir`.
pub open spec fn object_path_of(
    output_dir: Seq<char>,
    platform: Platform,
    path: Seq<char>,
    content: Seq<char>,
) -> Option<Seq<char>> {
    match cache_key_of(path, content) {
        Some(k) => Some(joined(output_dir, artifact_name(Extension::Object, platform, k))),
        None => None,
    }
}

/// The optimization flag of a profile, if it has one.
pub open spec fn optimization_args(profile: Profile) -> Seq<Seq<char>> {
    match gcc_flag(profile.optimization_level) {
        Some(f) => seq![f],
        None => Seq::empty(),
    }
}

/// The arguments that compile `source` into `object`: the optimization flag,
/// the header search path, the toolchain's compiler flags, `-fPIC` when asked
/// for, the source and the output.
pub open spec fn compile_args(
    profile: Profile,
    toolchain: ToolchainView,
    header_dir: Seq<char>,
    pic: bool,
    source: Seq<char>,
    object: Seq<char>,
) -> Seq<Seq<char>> {
    optimization_args(profile) + seq!["-I"@, header_dir] + views(toolchain.compiler_flags) + (if pic {
        seq!["-fPIC"@]
    } else {
        Seq::empty()
    }) + seq!["-c"@, source, "-o"@, object]
}

/// Every unit's path has a file name to key its object by.
pub open spec fn all_named(sources: Seq<SourceFile>) -> bool {
    forall|j: int| 0 <= j < sources.len() ==> (#[trigger] file_name_of(sources[j].path@)) is Some
}

/// Compiling `sources` fails with `e`: unit `i` is the first whose path has
/// no file name, and `e` names it.
pub open spec fn compile_fails(sources: Seq<SourceFile>, e: BuildError) -> bool {
    exists|i: int|
        0 <= i < sources.len() && (#[trigger] file_name_of(sources[i].path@)) is None && all_named(
            sources.subrange(0, i),
        ) && (e matches BuildError::NoFileName { path } && path@ == sources[i].path@)
}

/// One translation unit's object and the invocation that builds it.
pub struct CompileJob {
    pub source: String,
    pub object: String,
    pub command: CommandLine,
}

/// Compiles translation units with one toolchain, profile and header directory.
pub struct Compiler {
    pub profile: Profile,
    pub toolchain: Toolchain,
    pub include_path: String,
}

impl Compiler {
    pub fn new(profile: Profile, toolchain: Toolchain, include_path: String) -> (r: Compiler)
        ensures
            r.profile == profile,
            r.toolchain == toolchain,
            r.include_path == include_path,
    {
        Compiler { profile, toolchain, include_path }
    }

    /// The job of one translation unit whose object file is `object`.
    pub open spec fn job_matches(&self, pic: bool, source: Seq<char>, job: CompileJob) -> bool {
        &&& job.source@ == source
        &&& job.command.program@ == self.toolchain.compiler@
        &&& job.command@.args == compile_args(
            self.profile,
            self.toolchain@,
            self.include_path@,
            pic,
            source,
            job.object@,
        )
    }

    /// `jobs` are, in order, the objects of `sources` under `output_dir`, each
    /// with the invocation that builds it.
    pub open spec fn compiled(
        &self,
        sources: Seq<SourceFile>,
        output_dir: Seq<char>,
        pic: bool,
        platform: Platform,
        jobs: Seq<CompileJob>,
    ) -> bool {
        &&& jobs.len() == sources.len()
        &&& forall|i: int|
            0 <= i < jobs.len() ==> object_path_of(
                output_dir,
                platform,
                sources[i].path@,
                sources[i].content@,
            ) == Some(#[trigger] jobs[i].object@) && self.job_matches(pic, sources[i].path@, jobs[i])
    }

    /// The invocation that compiles `source` into `object`.
    pub fn command(&self, source: &str, object: &str, pic: bool) -> (r: CommandLine)
        ensures
            r.program@ == self.toolchain.compiler@,
            r@.args == compile_args(
                self.profile,
                self.toolchain@,
                self.include_path@,
                pic,
                source@,
                object@,
            ),
    {
        let mut args: Vec<String> = Vec::new();
        assert(views(args@) =~= Seq::<Seq<char>>::empty());
        if let Some(level) = self.profile.optimization_level.as_gcc_flag() {
            push_arg(&mut args, level);
        }
        assert(views(args@) =~= optimization_args(self.profile));
        push_arg(&mut args, "-I");
        push_arg(&mut args, self.include_path.as_str());
        push_all(&mut args, &self.toolchain.compiler_flags);
        let ghost mid = views(args@);
        if pic {
            push_arg(&mut args, "-fPIC");
        }
        assert(views(args@) =~= mid + (if pic {
            seq!["-fPIC"@]
        } else {
            Seq::empty()
        }));
        push_arg(&mut args, "-c");
        push_arg(&mut args, source);
        push_arg(&mut args, "-o");
        push_arg(&mut args, object);
        let r = CommandLine { program: self.toolchain.compiler.clone(), args };
        assert(r@.args =~= compile_args(
            self.profile,
            self.toolchain@,
            self.include_path@,
            pic,
            source@,
            object@,
        ));
        r
    }

    /// The object files of the units under `output_dir`, each with its
    /// compiler invocation, in the order of the units. Fails on the first
    /// unit whose path has no file name.
    pub fn compile(
        &self,
        source_files: &Vec<SourceFile>,
        output_dir: &str,
        pic: bool,
        platform: Platform,
    ) -> (r: Result<Vec<CompileJob>, BuildError>)
        ensures
            match r {
                Ok(jobs) => self.compiled(source_files@, output_dir@, pic, platform, jobs@),
                Err(e) => compile_fails(source_files@, e),
            },
    {
        let mut jobs: Vec<CompileJob> = Vec::new();
        let mut i: usize = 0;
        while i < source_files.len()
            invariant
                i <= source_files@.len(),
                jobs@.len() == i,
                forall|k: int|
                    0 <= k < i ==> object_path_of(
                        output_dir@,
                        platform,
                        source_files@[k].path@,
                        source_files@[k].content@,
                    ) == Some(#[trigger] jobs@[k].object@) && self.job_matches(
                        pic,
                        source_files@[k].path@,
                        jobs@[k],
                    ),
            decreases source_files.len() - i,
        {
            let source = &source_files[i];
            match hash(source.path.as_str(), source.content.as_str()) {
                None => {
                    assert forall|j: int| 0 <= j < i implies (#[trigger] file_name_of(
                        source_files@.subrange(0, i as int)[j].path@,
                    )) is Some by {
                        assert(source_files@.subrange(0, i as int)[j] == source_files@[j]);
                        assert(object_path_of(
                            output_dir@,
                            platform,
                            source_files@[j].path@,
                            source_files@[j].content@,
                        ) == Some(jobs@[j].object@));
                    }
                    return Err(BuildError::NoFileName { path: source.path.clone() });
                },
                Some(key) => {
                    let name = Extension::Object.file_name(key.as_str(), platform);
                    let object = join(output_dir, name.as_str());
                    let command = self.command(source.path.as_str(), object.as_str(), pic);
                    jobs.push(CompileJob { source: source.path.clone(), object, command });
                },
            }
            i = i + 1;
        }
        Ok(jobs)
    }
}

/// The positions of the objects that are not present yet, in order.
pub open spec fn absent(present: Seq<bool>) -> Seq<usize>
    decreases present.len(),
{
    if present.len() == 0 {
        Seq::empty()
    } else if present.last() {
        absent(present.drop_last())
    } else {
        absent(present.drop_last()).push((present.len() - 1) as usize)
    }
}

/// The jobs still to run: a job is skipped when its object file is present,
/// `present[i]` telling whether job `i`'s object exists.
pub fn pending(present: &Vec<bool>) -> (r: Vec<usize>)
    ensures
        r@ == absent(present@),
{
    let mut r: Vec<usize> = Vec::new();
    let mut i: usize = 0;
    while i < present.len()
        invariant
            i <= present@.len(),
            r@ == absent(present@.subrange(0, i as int)),
        decreases present.len() - i,
    {
        assert(present@.subrange(0, i + 1).drop_last() =~= present@.subrange(0, i as int));
        if !present[i] {
            r.push(i);
        }
        i = i + 1;
    }
    assert(present@.subrange(0, present@.len() as int) =~= present@);
    r
}

/// Compiles the sources of each resolved dependency into that dependency's
/// own object directory.
pub struct DependenciesCompiler<'a> {
    pub compiler: &'a Compiler,
    pub artifacts: &'a Vec<Artifact>,
}

impl<'a> DependenciesCompiler<'a> {
    pub fn new(compiler: &'a Compiler, artifacts: &'a Vec<Artifact>) -> (r: DependenciesCompiler<'a>)
        ensures
            r.compiler == compiler,
            r.artifacts == artifacts,
    {
        DependenciesCompiler { compiler, artifacts }
    }

    /// The jobs of every dependency, `sources[k]` holding the translation
    /// units of artifact `k`; those of artifact `k` go under
    /// `<cache>/dependency/<name>`. Fails as compiling the first failing
    /// dependency fails.
    pub fn compile(
        &self,
        cache: &TargetCachePath,
        sources: &Vec<Vec<SourceFile>>,
        pic: bool,
        platform: Platform,
    ) -> (r: Result<Vec<Vec<CompileJob>>, BuildError>)
        requires
            sources@.len() == self.artifacts@.len(),
        ensures
            match r {
                Ok(all) => all@.len() == sources@.len() && forall|k: int|
                    0 <= k < all@.len() ==> self.compiler.compiled(
                        sources@[k]@,
                        dependency_cache(cache.dependency@, self.artifacts@[k].dependency.name@),
                        pic,
                        platform,
                        #[trigger] all@[k]@,
                    ),
                Err(e) => exists|k: int|
                    0 <= k < sources@.len() && (forall|j: int|
                        0 <= j < k ==> all_named(#[trigger] sources@[j]@)) && compile_fails(
                        #[trigger] sources@[k]@,
                        e,
                    ),
            },
    {
        let mut all: Vec<Vec<CompileJob>> = Vec::new();
        let mut k: usize = 0;
        while k < sources.len()
            invariant
                k <= sources@.len() == self.artifacts@.len(),
                all@.len() == k,
                forall|j: int|
                    0 <= j < k ==> self.compiler.compiled(
                        sources@[j]@,
                        dependency_cache(cache.dependency@, self.artifacts@[j].dependency.name@),
                        pic,
                        platform,
                        #[trigger] all@[j]@,
                    ),
            decreases sources.len() - k,
        {
            let dir = cache.dependency_dir(self.artifacts[k].dependency.name.as_str());
            match self.compiler.compile(&sources[k], dir.as_str(), pic, platform) {
                Ok(jobs) => {
                    all.push(jobs);
                },
                Err(e) => {
                    assert forall|j: int| 0 <= j < k implies all_named(#[trigger] sources@[j]@) by {
                        let jobs = all@[j]@;
                        let out = dependency_cache(cache.dependency@, self.artifacts@[j].dependency.name@);
                        assert(self.compiler.compiled(sources@[j]@, out, pic, platform, jobs));
                        assert forall|m: int| 0 <= m < sources@[j]@.len() implies (#[trigger] file_name_of(
                            sources@[j]@[m].path@,
                        )) is Some by {
                            assert(object_path_of(
                                out,
                                platform,
                                sources@[j]@[m].path@,
                                sources@[j]@[m].content@,
                            ) == Some(jobs[m].object@));
                        }
                    }
                    return Err(e);
                },
            }
            k = k + 1;
        }
        Ok(all)
    }
}

} // verus!
