use corge::cli::{CloneArgs, CloneSource};
use corge::compdb::{compilation_database, compile_command};
use corge::compiler::{pending, Compiler, CompileJob, DependenciesCompiler, SourceFile};
use corge::config::{Dependency, LinkStrategy, OptimizationLevel, Profile, Toolchain};
use corge::error::BuildError;
use corge::extension::Platform;
use corge::headers::{fetch_files, DependencyIncludeFetcher};
use corge::layout::TargetPath;
use corge::linker::Linker;
use corge::pipeline::{Pipeline, Stage};
use corge::resolver::Artifact;
use corge::transport::{clone, fetch_dependency, TransportJob};

fn toolchain() -> Toolchain {
    Toolchain {
        compiler: "gcc".to_string(),
        archiver: "ar".to_string(),
        compiler_flags: vec!["-Wall".to_string()],
        linker_flags: vec!["-lm".to_string()],
    }
}

fn compiler(level: OptimizationLevel) -> Compiler {
    Compiler::new(Profile { optimization_level: level }, toolchain(), "dep/headers".to_string())
}

fn strings(v: &[&str]) -> Vec<String> {
    v.iter().map(|s| s.to_string()).collect()
}

#[test]
fn compile_command_in_order() {
    let c = compiler(OptimizationLevel::O2);
    let cmd = c.command("src/main.c", "out/main.o", true);
    assert_eq!(cmd.program, "gcc");
    assert_eq!(
        cmd.args,
        strings(&["-O2", "-I", "dep/headers", "-Wall", "-fPIC", "-c", "src/main.c", "-o", "out/main.o"])
    );
    let plain = compiler(OptimizationLevel::NoFlag).command("a.c", "a.o", false);
    assert_eq!(plain.args, strings(&["-I", "dep/headers", "-Wall", "-c", "a.c", "-o", "a.o"]));
}

#[test]
fn compile_names_objects_by_cache_key() {
    let c = compiler(OptimizationLevel::O);
    let sources = vec![SourceFile {
        path: "src/main.c".to_string(),
        content: "int main() { return 0; }\n".to_string(),
    }];
    let jobs = c.compile(&sources, "cache/project", false, Platform::Linux).ok().unwrap();
    assert_eq!(jobs.len(), 1);
    assert_eq!(
        jobs[0].object,
        "cache/project/main.c.ca4377160c41adbad0c7d2b95de6a7b754e379fe6fe89c0a9ebf15dc57406c0d.o"
    );
    assert_eq!(jobs[0].source, "src/main.c");
    assert_eq!(jobs[0].command.args.last().unwrap(), &jobs[0].object);
}

#[test]
fn compile_fails_on_a_path_without_file_name() {
    let c = compiler(OptimizationLevel::O);
    let sources = vec![
        SourceFile { path: "src/a.c".to_string(), content: String::new() },
        SourceFile { path: "src/..".to_string(), content: String::new() },
    ];
    match c.compile(&sources, "out", false, Platform::Linux) {
        Err(BuildError::NoFileName { path }) => assert_eq!(path, "src/.."),
        _ => panic!("expected NoFileName"),
    }
}

#[test]
fn present_objects_are_skipped() {
    assert_eq!(pending(&vec![true, false, true, false]), vec![1, 3]);
    assert_eq!(pending(&vec![true, true]), Vec::<usize>::new());
    assert_eq!(pending(&vec![]), Vec::<usize>::new());
}

#[test]
fn dependencies_compile_into_their_own_directories() {
    let c = compiler(OptimizationLevel::O);
    let artifacts = vec![
        Artifact {
            path: "dep/source/alpha".to_string(),
            dependency: Dependency { name: "alpha".to_string(), registry_name: "r".to_string() },
        },
        Artifact {
            path: "dep/source/beta".to_string(),
            dependency: Dependency { name: "beta".to_string(), registry_name: "r".to_string() },
        },
    ];
    let unit = |p: &str| SourceFile { path: p.to_string(), content: "int x;".to_string() };
    let sources = vec![vec![unit("dep/source/alpha/src/util.c")], vec![unit("dep/source/beta/src/util.c")]];
    let target = TargetPath::new("proj", "development", "default");
    let all: Vec<Vec<CompileJob>> = DependenciesCompiler::new(&c, &artifacts)
        .compile(&target.build_mode.toolchain.cache, &sources, false, Platform::Linux)
        .ok()
        .unwrap();
    assert!(all[0][0].object.starts_with("proj/target/development/default/cache/dependency/alpha/util.c."));
    assert!(all[1][0].object.starts_with("proj/target/development/default/cache/dependency/beta/util.c."));
    assert_ne!(all[0][0].object, all[1][0].object);
}

#[test]
fn link_steps_per_strategy() {
    let linker = Linker::new(toolchain());
    let objects = strings(&["a.o", "b.o"]);
    let exe = linker.link(LinkStrategy::Executable, &objects, "out", "foo", Platform::Windows);
    assert_eq!(exe.output, "out/foo.exe");
    assert_eq!(exe.command.program, "gcc");
    assert_eq!(exe.command.args, strings(&["-o", "out/foo.exe", "-lm", "a.o", "b.o"]));
    let lib = linker.link(LinkStrategy::StaticLibrary, &objects, "out", "foo", Platform::Linux);
    assert_eq!(lib.output, "out/libfoo.a");
    assert_eq!(lib.command.program, "ar");
    assert_eq!(lib.command.args, strings(&["rcs", "out/libfoo.a", "a.o", "b.o"]));
    let dylib = linker.link(LinkStrategy::DynamicLibrary, &objects, "out", "foo", Platform::MacOs);
    assert_eq!(dylib.output, "out/libfoo.dylib");
    assert_eq!(dylib.command.args, strings(&["-shared", "-o", "out/libfoo.dylib", "-lm", "a.o", "b.o"]));
    let bin = linker.link(LinkStrategy::Executable, &objects, "out", "foo", Platform::Linux);
    assert_eq!(bin.output, "out/foo");
}

#[test]
fn clone_sources() {
    let git = clone(CloneArgs {
        path: "copy".to_string(),
        source: CloneSource::Git { url: "https://example.org/p".to_string(), branch: "master".to_string() },
    });
    match git {
        TransportJob::Run(c) => assert_eq!(
            c.cli_str(),
            "git clone https://example.org/p --single-branch --branch master copy"
        ),
        _ => panic!("expected a git clone"),
    }
    let fs = clone(CloneArgs {
        path: "copy".to_string(),
        source: CloneSource::FileSystem { from: "/projects/p".to_string() },
    });
    match fs {
        TransportJob::CopyTree { from, to } => {
            assert_eq!(from, "/projects/p");
            assert_eq!(to, "copy");
        }
        _ => panic!("expected a tree copy"),
    }
}

#[test]
fn fetch_from_a_local_registry() {
    let d = Dependency { name: "zlib".to_string(), registry_name: "local".to_string() };
    match fetch_dependency(&corge::config::Registry::FileSystem("/libs/".to_string()), &d, "dep/source/zlib") {
        TransportJob::CopyTree { from, to } => {
            assert_eq!(from, "/libs/zlib");
            assert_eq!(to, "dep/source/zlib");
        }
        _ => panic!("expected a tree copy"),
    }
}

#[test]
fn headers_are_projected_per_dependency() {
    let artifacts = vec![Artifact {
        path: "dep/source/zlib".to_string(),
        dependency: Dependency { name: "zlib".to_string(), registry_name: "r".to_string() },
    }];
    let files = strings(&["zlib.h", "zlib.c", "inner/util.h", "README"]);
    let copies = DependencyIncludeFetcher::new(&artifacts).fetch("dep/headers", &vec![files]);
    assert_eq!(copies.len(), 1);
    let pairs: Vec<(String, String)> = copies[0].iter().map(|c| (c.from.clone(), c.to.clone())).collect();
    assert_eq!(
        pairs,
        vec![
            ("dep/source/zlib/src/zlib.h".to_string(), "dep/headers/zlib/zlib.h".to_string()),
            ("dep/source/zlib/src/inner/util.h".to_string(), "dep/headers/zlib/inner/util.h".to_string()),
        ]
    );
}

#[test]
fn translation_units_are_selected_by_extension() {
    let found = strings(&["p/src/main.c", "p/src/main.h", "p/src/x/y.c", "p/src/notes.txt"]);
    assert_eq!(fetch_files(&found, "c"), strings(&["p/src/main.c", "p/src/x/y.c"]));
}

#[test]
fn compilation_database_for_main_c() {
    let db = compilation_database(
        "/home/user/app",
        "/home/user/app/dependency/include",
        &strings(&["/home/user/app/src/main.c"]),
    );
    assert_eq!(db.len(), 1);
    assert_eq!(db[0].directory, "/home/user/app");
    assert_eq!(db[0].file, "/home/user/app/src/main.c");
    assert_eq!(db[0].command, "gcc -c /home/user/app/src/main.c -I /home/user/app/dependency/include");
    let one = compile_command("d", "f.c", "h");
    assert_eq!(one.command, "gcc -c f.c -I h");
}

#[test]
fn pipeline_runs_stages_in_order() {
    let mut p = Pipeline::new();
    let order = [
        Stage::ConfigParsed,
        Stage::ToolchainResolved,
        Stage::LayoutCreated,
        Stage::DependenciesFetched,
        Stage::HeadersProjected,
        Stage::DependenciesCompiled,
        Stage::ProjectCompiled,
        Stage::Linked,
        Stage::Done,
    ];
    for stage in order {
        assert_eq!(p.upcoming(), Some(stage));
        assert!(p.may_run(stage));
        p = p.advance(Ok(()));
    }
    assert!(p.is_done());
    assert_eq!(p.upcoming(), None);
}

#[test]
fn failed_stage_stops_the_pipeline() {
    let p = Pipeline::new().advance(Ok(()));
    let p = p.advance(Err(BuildError::ToolchainNotFound { name: "icc".to_string() }));
    assert!(matches!(p, Pipeline::Failed { stage: Stage::ToolchainResolved, .. }));
    let p = p.advance(Ok(()));
    assert!(matches!(p, Pipeline::Failed { stage: Stage::ToolchainResolved, .. }));
    assert!(!p.may_run(Stage::LayoutCreated));
}
