//! The fixed directory layout of a project: fetched dependency sources and
//! headers, the per-(mode, toolchain) target tree, the compilation database.
use vstd::prelude::*;

use crate::path::{join, joined};

verus! {

/// `dependency/source` and the shared header directory beside it under a
/// project; the caller names the header directory.
pub struct DependencyPath {
    pub source: String,
    pub headers: String,
}

impl DependencyPath {
    pub fn new(project_path: &str, headers_name: &str) -> (r: DependencyPath)
        ensures
            r.source@ == joined(joined(project_path@, "dependency"@), "source"@),
            r.headers@ == joined(joined(project_path@, "dependency"@), headers_name@),
    {
        let dependency_path = join(project_path, "dependency");
        DependencyPath {
            source: join(dependency_path.as_str(), "source"),
            headers: join(dependency_path.as_str(), headers_name),
        }
    }

    /// The two directories, for creating them before use.
    pub fn directories(&self) -> (r: Vec<String>)
        ensures
            r@.len() == 2,
            r@[0]@ == self.source@,
            r@[1]@ == self.headers@,
    {
        vec![self.source.clone(), self.headers.clone()]
    }
}

/// The object caches of one target tree.
pub struct TargetCachePath {
    pub project: String,
    pub dependency: String,
}

/// The directory that caches the objects of dependency `name`.
pub open spec fn dependency_cache(dependency_root: Seq<char>, name: Seq<char>) -> Seq<char> {
    joined(dependency_root, name)
}

impl TargetCachePath {
    pub fn dependency_dir(&self, name: &str) -> (r: String)
        ensures
            r@ == dependency_cache(self.dependency@, name@),
    {
        join(self.dependency.as_str(), name)
    }
}

/// `target/<mode>/<toolchain>`: the object caches and the output directory.
pub struct TargetToolchainPath {
    pub cache: TargetCachePath,
    pub output: String,
}

/// `target/<mode>`, holding the tree of the selected toolchain.
pub struct TargetBuildModePath {
    pub toolchain: TargetToolchainPath,
}

/// `target/<mode>/<toolchain>/` with `cache/project`, `cache/dependency` and `output`.
pub struct TargetPath {
    pub build_mode: TargetBuildModePath,
}

/// `target/<mode>/<toolchain>` under a project.
pub open spec fn toolchain_root(project: Seq<char>, mode: Seq<char>, toolchain: Seq<char>) -> Seq<
    char,
> {
    joined(joined(joined(project, "target"@), mode), toolchain)
}

impl TargetPath {
    pub fn new(project_path: &str, build_mode: &str, toolchain_name: &str) -> (r: TargetPath)
        ensures
            r.build_mode.toolchain.cache.project@ == joined(
                joined(toolchain_root(project_path@, build_mode@, toolchain_name@), "cache"@),
                "project"@,
            ),
            r.build_mode.toolchain.cache.dependency@ == joined(
                joined(toolchain_root(project_path@, build_mode@, toolchain_name@), "cache"@),
                "dependency"@,
            ),
            r.build_mode.toolchain.output@ == joined(
                toolchain_root(project_path@, build_mode@, toolchain_name@),
                "output"@,
            ),
    {
        let target = join(project_path, "target");
        let mode = join(target.as_str(), build_mode);
        let toolchain_path = join(mode.as_str(), toolchain_name);
        let cache_path = join(toolchain_path.as_str(), "cache");
        TargetPath {
            build_mode: TargetBuildModePath {
                toolchain: TargetToolchainPath {
                    cache: TargetCachePath {
                        project: join(cache_path.as_str(), "project"),
                        dependency: join(cache_path.as_str(), "dependency"),
                    },
                    output: join(toolchain_path.as_str(), "output"),
                },
            },
        }
    }

    /// The three directories of the tree, for creating them before any compilation.
    pub fn directories(&self) -> (r: Vec<String>)
        ensures
            r@.len() == 3,
            r@[0]@ == self.build_mode.toolchain.cache.project@,
            r@[1]@ == self.build_mode.toolchain.cache.dependency@,
            r@[2]@ == self.build_mode.toolchain.output@,
    {
        vec![
            self.build_mode.toolchain.cache.project.clone(),
            self.build_mode.toolchain.cache.dependency.clone(),
            self.build_mode.toolchain.output.clone(),
        ]
    }
}

/// `compilation_database/compile_commands.json` under a project.
pub struct CompilationDatabasePath {
    pub directory: String,
    pub json: String,
}

impl CompilationDatabasePath {
    pub fn new(project_path: &str) -> (r: CompilationDatabasePath)
        ensures
            r.directory@ == joined(project_path@, "compilation_database"@),
            r.json@ == joined(r.directory@, "compile_commands.json"@),
    {
        let directory = join(project_path, "compilation_database");
        let json = join(directory.as_str(), "compile_commands.json");
        CompilationDatabasePath { directory, json }
    }
}

/// Locates the configuration file of a project directory.
pub struct ConfigurationParser {
    pub project_directory: String,
}

impl ConfigurationParser {
    pub fn new(project_directory: String) -> (r: ConfigurationParser)
        ensures
            r.project_directory == project_directory,
    {
        ConfigurationParser { project_directory }
    }

    /// `build.yaml` in the project directory.
    pub fn config_path(&self) -> (r: String)
        ensures
            r@ == joined(self.project_directory@, "build.yaml"@),
    {
        join(self.project_directory.as_str(), "build.yaml")
    }
}

/// Two segments that differ and hold no `/`, each followed by `/` and
/// anything, make different texts.
proof fn lemma_distinct_segments(a: Seq<char>, b: Seq<char>, t1: Seq<char>, t2: Seq<char>)
    requires
        a != b,
        !a.contains('/'),
        !b.contains('/'),
    ensures
        a + "/"@ + t1 != b + "/"@ + t2,
{
    reveal_strlit("/");
    let x = a + "/"@ + t1;
    let y = b + "/"@ + t2;
    if a.len() < b.len() {
        assert(x[a.len() as int] == '/');
        assert(y[a.len() as int] == b[a.len() as int]);
        assert(!b.contains('/') ==> b[a.len() as int] != '/');
    } else if b.len() < a.len() {
        assert(y[b.len() as int] == '/');
        assert(x[b.len() as int] == a[b.len() as int]);
        assert(!a.contains('/') ==> a[b.len() as int] != '/');
    } else {
        let k = choose|k: int| 0 <= k < a.len() && a[k] != b[k];
        if forall|k: int| 0 <= k < a.len() ==> a[k] == b[k] {
            assert(a =~= b);
        }
        assert(x[k] == a[k]);
        assert(y[k] == b[k]);
    }
}

/// A directory joined from a base and then a segment, written out.
proof fn lemma_joined_segment(base: Seq<char>, seg: Seq<char>)
    requires
        seg.len() > 0,
    ensures
        joined(base, seg).len() > 0,
        joined(base, seg).last() == seg.last(),
        joined(base, seg) == prefix_of(base) + seg,
{
    reveal_strlit("/");
}

/// What `joined` puts before the name.
pub open spec fn prefix_of(base: Seq<char>) -> Seq<char> {
    if base.len() == 0 {
        base
    } else if base.last() == '/' {
        base
    } else {
        base + "/"@
    }
}

/// Cache isolation: under one cache root, the objects of two different
/// dependencies never share a path, whatever their file names, and no object
/// of a dependency shares a path with an object of the project.
pub proof fn lemma_cache_isolation(
    cache: Seq<char>,
    a: Seq<char>,
    b: Seq<char>,
    f1: Seq<char>,
    f2: Seq<char>,
)
    requires
        a != b,
        a.len() > 0,
        b.len() > 0,
        !a.contains('/'),
        !b.contains('/'),
    ensures
        joined(dependency_cache(joined(cache, "dependency"@), a), f1) != joined(
            dependency_cache(joined(cache, "dependency"@), b),
            f2,
        ),
        joined(dependency_cache(joined(cache, "dependency"@), a), f1) != joined(
            joined(cache, "project"@),
            f2,
        ),
{
    reveal_strlit("/");
    reveal_strlit("dependency");
    reveal_strlit("project");
    let root = joined(cache, "dependency"@);
    lemma_joined_segment(cache, "dependency"@);
    lemma_joined_segment(root, a);
    lemma_joined_segment(root, b);
    let da = dependency_cache(root, a);
    let db = dependency_cache(root, b);
    assert(!a.contains('/') ==> a.last() != '/');
    assert(!b.contains('/') ==> b.last() != '/');
    assert(root.last() != '/');
    assert(da == root + "/"@ + a);
    assert(db == root + "/"@ + b);
    assert(joined(da, f1) == root + "/"@ + a + "/"@ + f1);
    assert(joined(db, f2) == root + "/"@ + b + "/"@ + f2);
    lemma_distinct_segments(a, b, f1, f2);
    let p = root + "/"@;
    assert(joined(da, f1) =~= p + (a + "/"@ + f1));
    assert(joined(db, f2) =~= p + (b + "/"@ + f2));
    if joined(da, f1) == joined(db, f2) {
        assert((p + (a + "/"@ + f1)).subrange(p.len() as int, joined(da, f1).len() as int) =~= a
            + "/"@ + f1);
        assert((p + (b + "/"@ + f2)).subrange(p.len() as int, joined(db, f2).len() as int) =~= b
            + "/"@ + f2);
    }
    let pre = prefix_of(cache);
    let proj = joined(cache, "project"@);
    lemma_joined_segment(cache, "project"@);
    assert(proj.last() != '/');
    assert(joined(proj, f2) == pre + "project"@ + "/"@ + f2);
    assert(root == pre + "dependency"@);
    assert(joined(da, f1) == pre + "dependency"@ + "/"@ + a + "/"@ + f1);
    let x = joined(da, f1);
    let y = joined(proj, f2);
    assert(x[pre.len() as int] == 'd');
    assert(y[pre.len() as int] == 'p');
}

} // verus!
