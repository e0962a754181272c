use corge::cache::{hash, to_hex};
use corge::extension::{Extension, Platform};
use corge::layout::{CompilationDatabasePath, ConfigurationParser, DependencyPath, TargetPath};
use corge::path::{file_name, has_extension, join};

#[test]
fn join_adds_one_separator() {
    assert_eq!(join("a", "b"), "a/b");
    assert_eq!(join("a/", "b"), "a/b");
    assert_eq!(join("", "b"), "b");
    assert_eq!(join("./", "target"), "./target");
}

#[test]
fn file_names_and_extensions() {
    assert_eq!(file_name("src/main.c"), Some("main.c".to_string()));
    assert_eq!(file_name("main.c"), Some("main.c".to_string()));
    assert_eq!(file_name("src/"), None);
    assert_eq!(file_name("src/.."), None);
    assert!(has_extension("src/util/list.h", "h"));
    assert!(!has_extension("src/util/list.c", "h"));
    assert!(!has_extension("src/.h", "h"));
    assert!(!has_extension("src/Makefile", "c"));
    assert!(has_extension("a.b/c.tar.c", "c"));
}

#[test]
fn suffixes_per_platform() {
    assert_eq!(Extension::Object.linux_extension(), Some("o".to_string()));
    assert_eq!(Extension::Executable.linux_extension(), None);
    assert_eq!(Extension::DynamicLibrary.macos_extension(), Some("dylib".to_string()));
    assert_eq!(Extension::Object.windows_extension(), Some("obj".to_string()));
    assert_eq!(Extension::Executable.windows_extension(), Some("exe".to_string()));
    assert_eq!(Extension::StaticLibrary.windows_extension(), Some("lib".to_string()));
    assert_eq!(Extension::DynamicLibrary.windows_extension(), Some("dll".to_string()));
}

#[test]
fn static_library_named_foo() {
    assert_eq!(Extension::StaticLibrary.file_name("foo", Platform::Linux), "libfoo.a");
    assert_eq!(Extension::StaticLibrary.file_name("foo", Platform::MacOs), "libfoo.a");
    assert_eq!(Extension::StaticLibrary.file_name("foo", Platform::Windows), "libfoo.lib");
}

#[test]
fn executable_named_foo() {
    assert_eq!(Extension::Executable.file_name("foo", Platform::Windows), "foo.exe");
    assert_eq!(Extension::Executable.file_name("foo", Platform::Linux), "foo");
    assert_eq!(Extension::Executable.file_name("foo", Platform::MacOs), "foo");
}

#[test]
fn dynamic_library_and_object_names() {
    assert_eq!(Extension::DynamicLibrary.file_name("foo", Platform::Linux), "libfoo.so");
    assert_eq!(Extension::DynamicLibrary.file_name("foo", Platform::MacOs), "libfoo.dylib");
    assert_eq!(Extension::DynamicLibrary.file_name("foo", Platform::Windows), "libfoo.dll");
    assert_eq!(Extension::Object.file_name("k", Platform::Windows), "k.obj");
}

#[test]
fn triples_select_the_platform() {
    assert_eq!(Platform::for_triple("x86_64-pc-windows-msvc"), Platform::Windows);
    assert_eq!(Platform::for_triple("x86_64-apple-darwin"), Platform::MacOs);
    assert_eq!(Platform::for_triple("x86_64-linux-gnu"), Platform::Linux);
    assert_eq!(Platform::for_triple("x86_64-unknown-freebsd"), Platform::Linux);
    assert_eq!(Platform::for_triple("not a triple"), Platform::Linux);
    assert_eq!(Extension::Executable.for_triple("x86_64-pc-windows-msvc"), Some("exe".to_string()));
    assert_eq!(Extension::Executable.for_triple("x86_64-pc-linux-gnu"), None);
}

#[test]
fn hex_is_lower_case_two_digits_per_byte() {
    assert_eq!(to_hex(&vec![0x00, 0x0f, 0xa0, 0xff]), "000fa0ff");
    assert_eq!(to_hex(&vec![]), "");
}

#[test]
fn cache_key_digests_path_and_content() {
    let key = hash("src/main.c", "int main() { return 0; }\n").unwrap();
    assert_eq!(
        key,
        "main.c.ca4377160c41adbad0c7d2b95de6a7b754e379fe6fe89c0a9ebf15dc57406c0d"
    );
    assert_eq!(hash("src/", "x"), None);
}

#[test]
fn cache_key_changes_with_content_and_returns_on_revert() {
    let first = hash("src/main.c", "int main() { return 0; }\n").unwrap();
    let changed = hash("src/main.c", "int main() { return 1; }\n").unwrap();
    assert_eq!(
        changed,
        "main.c.bf24672de6024aa093718ff461c8e3e2b2b981284e763779f50cdc218476bc5a"
    );
    assert_ne!(first, changed);
    let reverted = hash("src/main.c", "int main() { return 0; }\n").unwrap();
    assert_eq!(first, reverted);
}

#[test]
fn cache_key_changes_with_path() {
    let a = hash("src/main.c", "x").unwrap();
    let b = hash("lib/main.c", "x").unwrap();
    assert_ne!(a, b);
    assert!(a.starts_with("main.c."));
    assert!(b.starts_with("main.c."));
}

#[test]
fn target_layout() {
    let t = TargetPath::new("proj", "release", "default");
    assert_eq!(t.build_mode.toolchain.cache.project, "proj/target/release/default/cache/project");
    assert_eq!(
        t.build_mode.toolchain.cache.dependency,
        "proj/target/release/default/cache/dependency"
    );
    assert_eq!(t.build_mode.toolchain.output, "proj/target/release/default/output");
    assert_eq!(t.directories().len(), 3);
    assert_eq!(
        t.build_mode.toolchain.cache.dependency_dir("zlib"),
        "proj/target/release/default/cache/dependency/zlib"
    );
}

#[test]
fn same_file_name_in_two_dependencies_does_not_collide() {
    let t = TargetPath::new("proj", "development", "default");
    let cache = &t.build_mode.toolchain.cache;
    let key = hash("src/util.c", "int f;").unwrap();
    let object = Extension::Object.file_name(&key, Platform::Linux);
    let a = join(&cache.dependency_dir("alpha"), &object);
    let b = join(&cache.dependency_dir("beta"), &object);
    let p = join(&cache.project, &object);
    assert_ne!(a, b);
    assert_ne!(a, p);
    assert_ne!(b, p);
}

#[test]
fn dependency_and_database_paths() {
    let d = DependencyPath::new("proj", "headers");
    assert_eq!(d.source, "proj/dependency/source");
    assert_eq!(d.headers, "proj/dependency/headers");
    let c = CompilationDatabasePath::new("proj");
    assert_eq!(c.directory, "proj/compilation_database");
    assert_eq!(c.json, "proj/compilation_database/compile_commands.json");
    assert_eq!(ConfigurationParser::new("proj".to_string()).config_path(), "proj/build.yaml");
}
