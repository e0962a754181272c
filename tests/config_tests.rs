use corge::cli::{BuildArgs, BuildModeCli, BuildToolchain, InitArgs};
use corge::config::{
    Config, Dependency, LinkStrategy, OptimizationLevel, Profile, Profiles, Project, Toolchain,
};
use corge::error::BuildError;

fn config_with_toolchains(toolchains: Vec<(String, Toolchain)>, profiles: Profiles) -> Config {
    Config {
        project: Project {
            name: "app".to_string(),
            version: "1.0.0".to_string(),
            link_strategy: LinkStrategy::Executable,
        },
        profiles,
        registries: vec![],
        dependencies: Vec::<Dependency>::new(),
        toolchains,
    }
}

fn no_profiles() -> Profiles {
    Profiles { release: None, development: None }
}

#[test]
fn yaml_tags_name_each_strategy() {
    assert_eq!(LinkStrategy::Executable.to_yaml_tag(), "!Executable");
    assert_eq!(LinkStrategy::StaticLibrary.to_yaml_tag(), "!StaticLibrary");
    assert_eq!(LinkStrategy::DynamicLibrary.to_yaml_tag(), "!DynamicLibrary");
}

#[test]
fn only_dynamic_libraries_need_pic() {
    assert!(LinkStrategy::DynamicLibrary.needs_pic());
    assert!(!LinkStrategy::StaticLibrary.needs_pic());
    assert!(!LinkStrategy::Executable.needs_pic());
}

#[test]
fn optimization_levels_map_to_gcc_flags() {
    assert_eq!(OptimizationLevel::NoFlag.as_gcc_flag(), None);
    assert_eq!(OptimizationLevel::O.as_gcc_flag(), Some("-O"));
    assert_eq!(OptimizationLevel::O0.as_gcc_flag(), Some("-O0"));
    assert_eq!(OptimizationLevel::O3.as_gcc_flag(), Some("-O3"));
    assert_eq!(OptimizationLevel::Ofast.as_gcc_flag(), Some("-Ofast"));
    assert_eq!(OptimizationLevel::Oz.as_gcc_flag(), Some("-Oz"));
}

#[test]
fn default_toolchain_is_gcc_and_ar() {
    let t = Toolchain::default();
    assert_eq!(t.compiler, "gcc");
    assert_eq!(t.archiver, "ar");
    assert!(t.compiler_flags.is_empty());
    assert!(t.linker_flags.is_empty());
}

#[test]
fn no_toolchain_selects_the_default() {
    let config = config_with_toolchains(vec![], no_profiles());
    let (name, t) = config.toolchain(None).ok().unwrap();
    assert_eq!(name, "default");
    assert_eq!(t.compiler, "gcc");
    let (name, _) = config.toolchain(Some(BuildToolchain::Default)).ok().unwrap();
    assert_eq!(name, "default");
}

#[test]
fn named_toolchain_is_looked_up() {
    let clang = Toolchain {
        compiler: "clang".to_string(),
        archiver: "llvm-ar".to_string(),
        compiler_flags: vec!["-Wall".to_string()],
        linker_flags: vec!["-lm".to_string()],
    };
    let config = config_with_toolchains(vec![("clang".to_string(), clang)], no_profiles());
    let (name, t) = config
        .toolchain(Some(BuildToolchain::Named { name: "clang".to_string() }))
        .ok()
        .unwrap();
    assert_eq!(name, "clang");
    assert_eq!(t.compiler, "clang");
    assert_eq!(t.archiver, "llvm-ar");
    assert_eq!(t.compiler_flags, vec!["-Wall".to_string()]);
    assert_eq!(t.linker_flags, vec!["-lm".to_string()]);
}

#[test]
fn missing_named_toolchain_is_an_error() {
    let config = config_with_toolchains(vec![], no_profiles());
    match config.toolchain(Some(BuildToolchain::Named { name: "icc".to_string() })) {
        Err(BuildError::ToolchainNotFound { name }) => assert_eq!(name, "icc"),
        _ => panic!("expected ToolchainNotFound"),
    }
}

#[test]
fn custom_toolchain_is_taken_as_given() {
    let config = config_with_toolchains(vec![], no_profiles());
    let (name, t) = config
        .toolchain(Some(BuildToolchain::Custom {
            compiler: "cc".to_string(),
            archiver: "ar2".to_string(),
            compiler_flags: vec!["-g".to_string()],
            linker_flags: vec![],
        }))
        .ok()
        .unwrap();
    assert_eq!(name, "custom");
    assert_eq!(t.compiler, "cc");
    assert_eq!(t.archiver, "ar2");
    assert_eq!(t.compiler_flags, vec!["-g".to_string()]);
}

#[test]
fn profiles_default_per_build_mode() {
    let config = config_with_toolchains(vec![], no_profiles());
    assert_eq!(
        config.profile(BuildModeCli::Development),
        Profile { optimization_level: OptimizationLevel::O }
    );
    assert_eq!(
        config.profile(BuildModeCli::Release),
        Profile { optimization_level: OptimizationLevel::Ofast }
    );
    let declared = Profiles {
        release: Some(Profile { optimization_level: OptimizationLevel::O2 }),
        development: Some(Profile { optimization_level: OptimizationLevel::NoFlag }),
    };
    let config = config_with_toolchains(vec![], declared);
    assert_eq!(config.profile(BuildModeCli::Release).optimization_level, OptimizationLevel::O2);
    assert_eq!(
        config.profile(BuildModeCli::Development).optimization_level,
        OptimizationLevel::NoFlag
    );
}

fn init(executable: bool, s_lib: bool, d_lib: bool) -> InitArgs {
    InitArgs { path: "./".to_string(), executable, s_lib, d_lib, no_git: false }
}

#[test]
fn init_flags_select_the_strategy() {
    assert_eq!(init(false, false, false).link_strategy(), LinkStrategy::Executable);
    assert_eq!(init(true, false, false).link_strategy(), LinkStrategy::Executable);
    assert_eq!(init(false, true, false).link_strategy(), LinkStrategy::StaticLibrary);
    assert_eq!(init(false, false, true).link_strategy(), LinkStrategy::DynamicLibrary);
    assert_eq!(init(false, true, true).link_strategy(), LinkStrategy::Executable);
}

fn build(release: bool, dev: bool) -> BuildArgs {
    BuildArgs { path: "./".to_string(), subcommand: None, release, dev }
}

#[test]
fn build_flags_select_the_mode() {
    assert_eq!(build(false, false).build_mode(), BuildModeCli::Development);
    assert_eq!(build(true, false).build_mode(), BuildModeCli::Release);
    assert_eq!(build(false, true).build_mode(), BuildModeCli::Development);
    assert_eq!(build(true, true).build_mode(), BuildModeCli::Development);
    assert_eq!(BuildModeCli::Release.to_string(), "release");
    assert_eq!(BuildModeCli::Development.to_string(), "development");
}
