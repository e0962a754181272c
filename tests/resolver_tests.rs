use std::collections::{HashMap, HashSet};

use corge::config::{Config, Dependency, LinkStrategy, Profiles, Project, Registry};
use corge::error::BuildError;
use corge::pipeline::{Pipeline, Stage};
use corge::resolver::{
    Artifact, DependencyResolver, DependencySourceFetcher, ResolveAction, ResolveEvent,
};
use corge::transport::TransportJob;

fn dep(name: &str, registry: &str) -> Dependency {
    Dependency { name: name.to_string(), registry_name: registry.to_string() }
}

fn local(name: &str) -> (String, Registry) {
    (name.to_string(), Registry::FileSystem("/repo".to_string()))
}

fn config(deps: &[(&str, &str)]) -> Config {
    Config {
        project: Project {
            name: "dep".to_string(),
            version: "1.0.0".to_string(),
            link_strategy: LinkStrategy::StaticLibrary,
        },
        profiles: Profiles { release: None, development: None },
        registries: vec![local("local")],
        dependencies: deps.iter().map(|(n, r)| dep(n, r)).collect(),
        toolchains: vec![],
    }
}

/// A simulated disk: which dependencies carry a configuration (and with what
/// dependencies), which sources are present, and what was fetched.
struct World {
    graph: HashMap<String, Option<Vec<(String, String)>>>,
    present: HashSet<String>,
    fetches: Vec<String>,
    jobs: Vec<TransportJob>,
}

impl World {
    fn new(graph: &[(&str, Option<&[(&str, &str)]>)]) -> World {
        let mut g = HashMap::new();
        for (name, deps) in graph {
            g.insert(
                name.to_string(),
                deps.map(|d| d.iter().map(|(a, b)| (a.to_string(), b.to_string())).collect()),
            );
        }
        World { graph: g, present: HashSet::new(), fetches: vec![], jobs: vec![] }
    }

    fn config_of(&self, name: &str) -> Option<Config> {
        match self.graph.get(name) {
            Some(Some(deps)) => {
                let d: Vec<(&str, &str)> = deps.iter().map(|(a, b)| (a.as_str(), b.as_str())).collect();
                Some(config(&d))
            }
            _ => None,
        }
    }

    fn run(&mut self, mut resolver: DependencyResolver) -> Result<Vec<Artifact>, BuildError> {
        let mut event = ResolveEvent::Start;
        loop {
            match resolver.resolve(event) {
                ResolveAction::Probe { dependency, .. } => {
                    event = ResolveEvent::Probed(self.present.contains(&dependency));
                }
                ResolveAction::Fetch { dependency, job } => {
                    self.fetches.push(dependency.clone());
                    self.jobs.push(job);
                    self.present.insert(dependency);
                    event = ResolveEvent::Fetched;
                }
                ResolveAction::ReadConfig { dependency, .. } => {
                    event = ResolveEvent::ConfigRead(self.config_of(&dependency));
                }
                ResolveAction::Done => return Ok(resolver.into_artifacts()),
                ResolveAction::Fail(e) => return Err(e),
                ResolveAction::Ignored => panic!("the resolver ignored an event"),
            }
        }
    }
}

fn names(artifacts: &[Artifact]) -> Vec<String> {
    artifacts.iter().map(|a| a.dependency.name.clone()).collect()
}

fn root(deps: &[(&str, &str)]) -> DependencyResolver {
    DependencyResolver::new(
        vec![local("local")],
        deps.iter().map(|(n, r)| dep(n, r)).collect(),
        "proj/dependency/source".to_string(),
    )
}

fn diamond() -> World {
    World::new(&[
        ("a", Some(&[("c", "local")])),
        ("b", Some(&[("c", "local")])),
        ("c", None),
    ])
}

#[test]
fn resolves_in_pre_order_with_paths() {
    let mut world = World::new(&[("a", Some(&[("b", "local")])), ("b", None), ("c", None)]);
    let artifacts = world.run(root(&[("a", "local"), ("c", "local")])).ok().unwrap();
    assert_eq!(names(&artifacts), vec!["a", "b", "c"]);
    assert_eq!(artifacts[0].path, "proj/dependency/source/a");
    assert_eq!(artifacts[1].path, "proj/dependency/source/b");
    assert_eq!(world.fetches, vec!["a", "b", "c"]);
}

#[test]
fn shared_dependency_is_fetched_once() {
    let mut world = diamond();
    let artifacts = world.run(root(&[("a", "local"), ("b", "local")])).ok().unwrap();
    assert_eq!(names(&artifacts), vec!["a", "c", "b"]);
    assert_eq!(world.fetches, vec!["a", "c", "b"]);
}

#[test]
fn second_resolution_fetches_nothing_and_agrees() {
    let mut world = diamond();
    let first = names(&world.run(root(&[("a", "local"), ("b", "local")])).ok().unwrap());
    let fetched_first = world.fetches.len();
    let second = names(&world.run(root(&[("a", "local"), ("b", "local")])).ok().unwrap());
    assert_eq!(world.fetches.len(), fetched_first);
    assert_eq!(first, second);
}

#[test]
fn missing_registry_fails_the_resolution() {
    let mut world = World::new(&[("x", None)]);
    match world.run(root(&[("x", "nowhere")])) {
        Err(BuildError::RegistryNotFound { dependency, registry }) => {
            assert_eq!(dependency, "x");
            assert_eq!(registry, "nowhere");
        }
        _ => panic!("expected RegistryNotFound"),
    }
    assert!(world.fetches.is_empty());
}

#[test]
fn missing_registry_aborts_the_build_before_compiling() {
    let mut world = World::new(&[("x", None)]);
    let mut pipeline = Pipeline::new();
    for _ in 0..3 {
        pipeline = pipeline.advance(Ok(()));
    }
    assert!(pipeline.may_run(Stage::DependenciesFetched));
    let outcome = world.run(root(&[("x", "nowhere")])).map(|_| ());
    let pipeline = pipeline.advance(outcome);
    match &pipeline {
        Pipeline::Failed { stage, error } => {
            assert_eq!(*stage, Stage::DependenciesFetched);
            assert!(matches!(error, BuildError::RegistryNotFound { .. }));
        }
        _ => panic!("expected a failed build"),
    }
    assert!(!pipeline.may_run(Stage::HeadersProjected));
    assert!(!pipeline.may_run(Stage::DependenciesCompiled));
    assert!(!pipeline.may_run(Stage::ProjectCompiled));
    assert_eq!(pipeline.upcoming(), None);
}

#[test]
fn nested_registry_is_looked_up_in_the_nested_configuration() {
    let mut world = World::new(&[("a", Some(&[("b", "elsewhere")])), ("b", None)]);
    match world.run(root(&[("a", "local")])) {
        Err(BuildError::RegistryNotFound { dependency, registry }) => {
            assert_eq!(dependency, "b");
            assert_eq!(registry, "elsewhere");
        }
        _ => panic!("expected RegistryNotFound"),
    }
    assert_eq!(world.fetches, vec!["a"]);
}

#[test]
fn cycle_is_detected() {
    let mut world = World::new(&[("a", Some(&[("b", "local")])), ("b", Some(&[("a", "local")]))]);
    match world.run(root(&[("a", "local")])) {
        Err(BuildError::CycleDetected { dependency }) => assert_eq!(dependency, "a"),
        _ => panic!("expected CycleDetected"),
    }
}

#[test]
fn dependency_without_configuration_ends_its_branch() {
    let mut world = World::new(&[]);
    let artifacts = world.run(root(&[("leaf", "local")])).ok().unwrap();
    assert_eq!(names(&artifacts), vec!["leaf"]);
}

#[test]
fn local_registry_copies_the_named_tree() {
    let mut world = World::new(&[("a", None)]);
    world.run(root(&[("a", "local")])).ok().unwrap();
    match &world.jobs[0] {
        TransportJob::CopyTree { from, to } => {
            assert_eq!(from, "/repo/a");
            assert_eq!(to, "proj/dependency/source/a");
        }
        _ => panic!("expected a tree copy"),
    }
}

#[test]
fn git_registry_clones_the_named_repository() {
    let fetcher = DependencySourceFetcher::new(
        vec![(
            "remote".to_string(),
            Registry::Git { url: "https://example.org/libs".to_string(), branch: "main".to_string() },
        )],
        vec![dep("zlib", "remote")],
    );
    let mut resolver = fetcher.fetch("src".to_string());
    match resolver.resolve(ResolveEvent::Start) {
        ResolveAction::Probe { dependency, path } => {
            assert_eq!(dependency, "zlib");
            assert_eq!(path, "src/zlib");
        }
        _ => panic!("expected a probe"),
    }
    match resolver.resolve(ResolveEvent::Probed(false)) {
        ResolveAction::Fetch { job: TransportJob::Run(command), .. } => {
            assert_eq!(command.program, "git");
            assert_eq!(
                command.args,
                vec!["clone", "https://example.org/libs/zlib", "--single-branch", "--branch", "main", "src/zlib"]
            );
            assert_eq!(
                command.cli_str(),
                "git clone https://example.org/libs/zlib --single-branch --branch main src/zlib"
            );
        }
        _ => panic!("expected a fetch"),
    }
    match resolver.resolve(ResolveEvent::Failed(BuildError::Transport {
        dependency: "zlib".to_string(),
        detail: "unreachable".to_string(),
    })) {
        ResolveAction::Fail(BuildError::Transport { dependency, .. }) => assert_eq!(dependency, "zlib"),
        _ => panic!("expected the failure to be passed on"),
    }
    assert!(matches!(resolver.resolve(ResolveEvent::Start), ResolveAction::Ignored));
}

#[test]
fn present_sources_go_straight_to_the_configuration() {
    let mut resolver = root(&[("a", "local")]);
    assert!(matches!(resolver.resolve(ResolveEvent::Start), ResolveAction::Probe { .. }));
    match resolver.resolve(ResolveEvent::Probed(true)) {
        ResolveAction::ReadConfig { dependency, path } => {
            assert_eq!(dependency, "a");
            assert_eq!(path, "proj/dependency/source/a/build.yaml");
        }
        _ => panic!("expected the configuration to be read"),
    }
    assert!(matches!(resolver.resolve(ResolveEvent::ConfigRead(None)), ResolveAction::Done));
    assert!(resolver.is_done());
}
