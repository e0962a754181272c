//! The dependency resolver: walks the dependency graph in pre-order and
//! flattens it into a list of resolved artifacts, fetching each dependency's
//! sources only when they are not present yet.
//!
//! The walk alternates decisions with outside work (probing the disk, running
//! the transport, reading a nested configuration). The resolver makes the
//! decisions: each call of `resolve` takes what the outside work found and
//! returns the next piece of work to do.
use vstd::prelude::*;

use crate::config::{Config, Dependency, Registry};
use crate::error::BuildError;
use crate::names::{find_named, first_named, has_name};
use crate::path::{join, joined};
use crate::text::{same_text, views};
use crate::transport::{fetch_dependency, fetch_of, TransportJob, TransportView};

verus! {

/// A dependency with the local path of its fetched sources.
pub struct Artifact {
    pub path: String,
    pub dependency: Dependency,
}

/// An artifact with its path as text.
pub struct ArtifactView {
    pub path: Seq<char>,
    pub dependency: Dependency,
}

impl View for Artifact {
    type V = ArtifactView;

    open spec fn view(&self) -> ArtifactView {
        ArtifactView { path: self.path@, dependency: self.dependency }
    }
}

/// A dependency with the registry it is fetched from.
pub struct DependencySource {
    pub registry: Registry,
    pub dependency: Dependency,
}

impl DependencySource {
    /// A copy, field by field.
    pub fn duplicate(&self) -> (r: DependencySource)
        ensures
            r == *self,
    {
        DependencySource { registry: self.registry.duplicate(), dependency: self.dependency.duplicate() }
    }
}

/// The dependency list of one configuration, with how far the walk has got in it.
pub struct Frame {
    pub registries: Vec<(String, Registry)>,
    pub dependencies: Vec<Dependency>,
    pub next: usize,
}

/// A dependency list and the position of the next dependency in it.
pub struct FrameView {
    pub registries: Seq<(String, Registry)>,
    pub dependencies: Seq<Dependency>,
    pub next: int,
}

impl View for Frame {
    type V = FrameView;

    open spec fn view(&self) -> FrameView {
        FrameView { registries: self.registries@, dependencies: self.dependencies@, next: self.next as int }
    }
}

/// What the resolver waits for.
pub enum Phase {
    /// Not started.
    Idle,
    /// Whether the sources of this dependency are present.
    Probing(DependencySource),
    /// The end of this dependency's fetch.
    Fetching(DependencySource),
    /// This dependency's own configuration.
    Reading(DependencySource),
    /// Nothing: the walk is complete.
    Done,
    /// Nothing: the walk failed.
    Failed,
}

/// What the outside work found.
pub enum ResolveEvent {
    /// Begin the walk.
    Start,
    /// The dependency's sources are (`true`) or are not present.
    Probed(bool),
    /// The fetch succeeded.
    Fetched,
    /// The dependency's configuration, or `None` where it has none.
    ConfigRead(Option<Config>),
    /// The outside work failed.
    Failed(BuildError),
}

/// The next piece of work.
pub enum ResolveAction {
    /// Report whether `path`, where the dependency's sources belong, exists.
    Probe { dependency: String, path: String },
    /// Perform this fetch, then report it.
    Fetch { dependency: String, job: TransportJob },
    /// Read and parse the configuration file at `path`, if there is one.
    ReadConfig { dependency: String, path: String },
    /// The walk is complete.
    Done,
    /// The walk failed.
    Fail(BuildError),
    /// The event was not the one awaited; nothing changed.
    Ignored,
}

/// A piece of work, with texts for strings.
pub enum ActionView {
    Probe { dependency: Seq<char>, path: Seq<char> },
    Fetch { dependency: Seq<char>, job: TransportView },
    ReadConfig { dependency: Seq<char>, path: Seq<char> },
    Done,
    Fail(BuildError),
    Ignored,
}

impl View for ResolveAction {
    type V = ActionView;

    open spec fn view(&self) -> ActionView {
        match self {
            ResolveAction::Probe { dependency, path } => ActionView::Probe {
                dependency: dependency@,
                path: path@,
            },
            ResolveAction::Fetch { dependency, job } => ActionView::Fetch {
                dependency: dependency@,
                job: job@,
            },
            ResolveAction::ReadConfig { dependency, path } => ActionView::ReadConfig {
                dependency: dependency@,
                path: path@,
            },
            ResolveAction::Done => ActionView::Done,
            ResolveAction::Fail(e) => ActionView::Fail(*e),
            ResolveAction::Ignored => ActionView::Ignored,
        }
    }
}

/// The resolver's state: the stack of dependency lists being walked, the
/// dependencies whose own dependencies are being resolved, and the artifacts
/// resolved so far, in pre-order.
pub struct DependencyResolver {
    pub sources_dir: String,
    pub stack: Vec<Frame>,
    pub ancestors: Vec<String>,
    pub artifacts: Vec<Artifact>,
    pub phase: Phase,
}

/// The resolver's state, with texts for strings.
pub struct ResolverView {
    pub sources_dir: Seq<char>,
    pub stack: Seq<FrameView>,
    pub ancestors: Seq<Seq<char>>,
    pub artifacts: Seq<ArtifactView>,
    pub phase: Phase,
}

impl View for DependencyResolver {
    type V = ResolverView;

    open spec fn view(&self) -> ResolverView {
        ResolverView {
            sources_dir: self.sources_dir@,
            stack: self.stack@.map_values(|f: Frame| f@),
            ancestors: views(self.ancestors@),
            artifacts: self.artifacts@.map_values(|a: Artifact| a@),
            phase: self.phase,
        }
    }
}

/// The names of the artifacts.
pub open spec fn artifact_names(a: Seq<ArtifactView>) -> Seq<Seq<char>> {
    a.map_values(|x: ArtifactView| x.dependency.name@)
}

/// Where a dependency's sources go.
pub open spec fn source_path(sources_dir: Seq<char>, name: Seq<char>) -> Seq<char> {
    joined(sources_dir, name)
}

/// Where a dependency's own configuration file is.
pub open spec fn config_path(sources_dir: Seq<char>, name: Seq<char>) -> Seq<char> {
    joined(joined(sources_dir, name), "build.yaml"@)
}

/// How many dependencies the innermost list has left.
pub open spec fn remaining(s: ResolverView) -> nat {
    if s.stack.len() == 0 {
        0
    } else {
        let t = s.stack.last();
        if t.next < t.dependencies.len() {
            (t.dependencies.len() - t.next) as nat
        } else {
            0
        }
    }
}

/// Moves the walk on to the next dependency that needs work: lists that are
/// exhausted are left (ending their owner's resolution); a dependency whose
/// registry is not declared beside it fails the walk, as does one met again
/// while its own dependencies are being resolved (a cycle); one already
/// resolved is skipped; any other is probed. With every list exhausted the
/// walk is complete.
pub open spec fn advance(s: ResolverView) -> (ResolverView, ActionView)
    decreases s.stack.len(), remaining(s),
{
    if s.stack.len() == 0 {
        (ResolverView { phase: Phase::Done, ..s }, ActionView::Done)
    } else {
        let top = s.stack.last();
        if !(0 <= top.next < top.dependencies.len()) {
            advance(
                ResolverView {
                    stack: s.stack.drop_last(),
                    ancestors: if s.ancestors.len() > 0 {
                        s.ancestors.drop_last()
                    } else {
                        s.ancestors
                    },
                    ..s
                },
            )
        } else {
            let d = top.dependencies[top.next];
            let s1 = ResolverView {
                stack: s.stack.update(s.stack.len() - 1, FrameView { next: top.next + 1, ..top }),
                ..s
            };
            if !has_name(top.registries, d.registry_name@) {
                (
                    ResolverView { phase: Phase::Failed, ..s1 },
                    ActionView::Fail(
                        BuildError::RegistryNotFound {
                            dependency: d.name,
                            registry: d.registry_name,
                        },
                    ),
                )
            } else if s.ancestors.contains(d.name@) {
                (
                    ResolverView { phase: Phase::Failed, ..s1 },
                    ActionView::Fail(BuildError::CycleDetected { dependency: d.name }),
                )
            } else if artifact_names(s.artifacts).contains(d.name@) {
                advance(s1)
            } else {
                (
                    ResolverView {
                        phase: Phase::Probing(
                            DependencySource {
                                registry: first_named(top.registries, d.registry_name@),
                                dependency: d,
                            },
                        ),
                        ..s1
                    },
                    ActionView::Probe {
                        dependency: d.name@,
                        path: source_path(s.sources_dir, d.name@),
                    },
                )
            }
        }
    }
}

/// One step of the walk: the state after `e` and the next piece of work.
pub open spec fn next(s: ResolverView, e: ResolveEvent) -> (ResolverView, ActionView) {
    match s.phase {
        Phase::Idle => match e {
            ResolveEvent::Start => advance(s),
            ResolveEvent::Failed(err) => (ResolverView { phase: Phase::Failed, ..s }, ActionView::Fail(err)),
            _ => (s, ActionView::Ignored),
        },
        Phase::Probing(src) => match e {
            ResolveEvent::Probed(present) => if present {
                (
                    ResolverView { phase: Phase::Reading(src), ..s },
                    ActionView::ReadConfig {
                        dependency: src.dependency.name@,
                        path: config_path(s.sources_dir, src.dependency.name@),
                    },
                )
            } else {
                (
                    ResolverView { phase: Phase::Fetching(src), ..s },
                    ActionView::Fetch {
                        dependency: src.dependency.name@,
                        job: fetch_of(
                            src.registry,
                            src.dependency,
                            source_path(s.sources_dir, src.dependency.name@),
                        ),
                    },
                )
            },
            ResolveEvent::Failed(err) => (ResolverView { phase: Phase::Failed, ..s }, ActionView::Fail(err)),
            _ => (s, ActionView::Ignored),
        },
        Phase::Fetching(src) => match e {
            ResolveEvent::Fetched => (
                ResolverView { phase: Phase::Reading(src), ..s },
                ActionView::ReadConfig {
                    dependency: src.dependency.name@,
                    path: config_path(s.sources_dir, src.dependency.name@),
                },
            ),
            ResolveEvent::Failed(err) => (ResolverView { phase: Phase::Failed, ..s }, ActionView::Fail(err)),
            _ => (s, ActionView::Ignored),
        },
        Phase::Reading(src) => match e {
            ResolveEvent::ConfigRead(cfg) => {
                let s1 = ResolverView {
                    artifacts: s.artifacts.push(
                        ArtifactView {
                            path: source_path(s.sources_dir, src.dependency.name@),
                            dependency: src.dependency,
                        },
                    ),
                    ..s
                };
                match cfg {
                    Some(c) => advance(
                        ResolverView {
                            stack: s1.stack.push(
                                FrameView {
                                    registries: c.registries@,
                                    dependencies: c.dependencies@,
                                    next: 0,
                                },
                            ),
                            ancestors: s1.ancestors.push(src.dependency.name@),
                            ..s1
                        },
                    ),
                    None => advance(s1),
                }
            },
            ResolveEvent::Failed(err) => (ResolverView { phase: Phase::Failed, ..s }, ActionView::Fail(err)),
            _ => (s, ActionView::Ignored),
        },
        _ => (s, ActionView::Ignored),
    }
}

/// Whether `name` is among the texts of `v`.
fn contains_text(v: &Vec<String>, name: &str) -> (r: bool)
    ensures
        r == views(v@).contains(name@),
{
    let mut i: usize = 0;
    while i < v.len()
        invariant
            i <= v@.len(),
            forall|j: int| 0 <= j < i ==> #[trigger] v@[j]@ != name@,
        decreases v.len() - i,
    {
        if same_text(v[i].as_str(), name) {
            assert(views(v@)[i as int] == name@);
            return true;
        }
        i = i + 1;
    }
    assert(!views(v@).contains(name@) ) by {
        if views(v@).contains(name@) {
            let j = choose|j: int| 0 <= j < views(v@).len() && views(v@)[j] == name@;
            assert(v@[j]@ == name@);
        }
    }
    false
}

/// Whether an artifact named `name` has been resolved.
fn is_resolved(artifacts: &Vec<Artifact>, name: &str) -> (r: bool)
    ensures
        r == artifact_names(artifacts@.map_values(|a: Artifact| a@)).contains(name@),
{
    let ghost names = artifact_names(artifacts@.map_values(|a: Artifact| a@));
    let mut i: usize = 0;
    while i < artifacts.len()
        invariant
            i <= artifacts@.len(),
            names == artifact_names(artifacts@.map_values(|a: Artifact| a@)),
            forall|j: int| 0 <= j < i ==> #[trigger] artifacts@[j].dependency.name@ != name@,
        decreases artifacts.len() - i,
    {
        if same_text(artifacts[i].dependency.name.as_str(), name) {
            assert(names[i as int] == name@);
            return true;
        }
        i = i + 1;
    }
    assert(!names.contains(name@)) by {
        if names.contains(name@) {
            let j = choose|j: int| 0 <= j < names.len() && names[j] == name@;
            assert(artifacts@[j].dependency.name@ == name@);
        }
    }
    false
}

impl DependencyResolver {
    /// A resolver that has not started, for the dependency list of a root
    /// configuration, fetching into `sources_dir`.
    pub fn new(registries: Vec<(String, Registry)>, dependencies: Vec<Dependency>, sources_dir: String) -> (r: DependencyResolver)
        ensures
            r@ == (ResolverView {
                sources_dir: sources_dir@,
                stack: seq![FrameView { registries: registries@, dependencies: dependencies@, next: 0 }],
                ancestors: Seq::empty(),
                artifacts: Seq::empty(),
                phase: Phase::Idle,
            }),
    {
        let r = DependencyResolver {
            sources_dir,
            stack: vec![Frame { registries, dependencies, next: 0 }],
            ancestors: Vec::new(),
            artifacts: Vec::new(),
            phase: Phase::Idle,
        };
        assert(r@.stack =~= seq![FrameView { registries: registries@, dependencies: dependencies@, next: 0 }]);
        assert(r@.ancestors =~= Seq::<Seq<char>>::empty());
        assert(r@.artifacts =~= Seq::<ArtifactView>::empty());
        r
    }

    fn advance(&mut self) -> (r: ResolveAction)
        ensures
            (final(self)@, r@) == advance(old(self)@),
    {
        loop
            invariant
                advance(self@) == advance(old(self)@),
            decreases self@.stack.len(), remaining(self@),
        {
            let ghost s = self@;
            if self.stack.len() == 0 {
                self.phase = Phase::Done;
                assert(advance(s) == (self@, ActionView::Done));
                return ResolveAction::Done;
            }
            let ghost old_stack = self.stack@;
            let mut top = self.stack.pop().unwrap();
            assert(self.stack@.map_values(|f: Frame| f@) =~= s.stack.drop_last());
            assert(top@ == s.stack.last());
            if top.next >= top.dependencies.len() {
                let ghost old_anc = self.ancestors@;
                if self.ancestors.len() > 0 {
                    self.ancestors.pop();
                    assert(views(self.ancestors@) =~= views(old_anc).drop_last());
                }
                assert(self@ == (ResolverView {
                    stack: s.stack.drop_last(),
                    ancestors: if s.ancestors.len() > 0 {
                        s.ancestors.drop_last()
                    } else {
                        s.ancestors
                    },
                    ..s
                }));
                continue;
            }
            let k = top.next;
            top.next = k + 1;
            let d = top.dependencies[k].duplicate();
            let ghost s1 = ResolverView {
                stack: s.stack.update(s.stack.len() - 1, FrameView { next: k + 1, ..s.stack.last() }),
                ..s
            };
            match find_named(&top.registries, d.registry_name.as_str()) {
                None => {
                    self.stack.push(top);
                    assert(self.stack@.map_values(|f: Frame| f@) =~= s1.stack);
                    self.phase = Phase::Failed;
                    let r = ResolveAction::Fail(
                        BuildError::RegistryNotFound { dependency: d.name, registry: d.registry_name },
                    );
                    assert(s.stack.last().dependencies[k as int] == d);
                    assert(advance(s) == (self@, r@));
                    return r;
                },
                Some(i) => {
                    if contains_text(&self.ancestors, d.name.as_str()) {
                        self.stack.push(top);
                        assert(self.stack@.map_values(|f: Frame| f@) =~= s1.stack);
                        self.phase = Phase::Failed;
                        let r = ResolveAction::Fail(BuildError::CycleDetected { dependency: d.name });
                        assert(s.stack.last().dependencies[k as int] == d);
                        assert(advance(s) == (self@, r@));
                        return r;
                    }
                    if is_resolved(&self.artifacts, d.name.as_str()) {
                        self.stack.push(top);
                        assert(self.stack@.map_values(|f: Frame| f@) =~= s1.stack);
                        assert(self@ == s1);
                        continue;
                    }
                    let registry = top.registries[i].1.duplicate();
                    self.stack.push(top);
                    assert(self.stack@.map_values(|f: Frame| f@) =~= s1.stack);
                    let path = join(self.sources_dir.as_str(), d.name.as_str());
                    let name = d.name.clone();
                    self.phase = Phase::Probing(DependencySource { registry, dependency: d });
                    return ResolveAction::Probe { dependency: name, path };
                },
            }
        }
    }

    /// Takes one step of the walk: `event` reports the outcome of the work
    /// last asked for (or starts the walk), and the result is the next piece
    /// of work.
    pub fn resolve(&mut self, event: ResolveEvent) -> (r: ResolveAction)
        ensures
            (final(self)@, r@) == next(old(self)@, event),
    {
        let ghost s = self@;
        let mut phase = Phase::Idle;
        std::mem::swap(&mut self.phase, &mut phase);
        match phase {
            Phase::Idle => match event {
                ResolveEvent::Start => {
                    self.phase = Phase::Idle;
                    assert(self@ == s);
                    self.advance()
                },
                ResolveEvent::Failed(err) => {
                    self.phase = Phase::Failed;
                    ResolveAction::Fail(err)
                },
                _ => {
                    self.phase = Phase::Idle;
                    assert(self@ == s);
                    ResolveAction::Ignored
                },
            },
            Phase::Probing(src) => match event {
                ResolveEvent::Probed(present) => {
                    let name = src.dependency.name.clone();
                    let source = join(self.sources_dir.as_str(), name.as_str());
                    if present {
                        let path = join(source.as_str(), "build.yaml");
                        self.phase = Phase::Reading(src);
                        ResolveAction::ReadConfig { dependency: name, path }
                    } else {
                        let job = fetch_dependency(&src.registry, &src.dependency, source.as_str());
                        self.phase = Phase::Fetching(src);
                        ResolveAction::Fetch { dependency: name, job }
                    }
                },
                ResolveEvent::Failed(err) => {
                    self.phase = Phase::Failed;
                    ResolveAction::Fail(err)
                },
                _ => {
                    self.phase = Phase::Probing(src);
                    assert(self@ == s);
                    ResolveAction::Ignored
                },
            },
            Phase::Fetching(src) => match event {
                ResolveEvent::Fetched => {
                    let name = src.dependency.name.clone();
                    let source = join(self.sources_dir.as_str(), name.as_str());
                    let path = join(source.as_str(), "build.yaml");
                    self.phase = Phase::Reading(src);
                    ResolveAction::ReadConfig { dependency: name, path }
                },
                ResolveEvent::Failed(err) => {
                    self.phase = Phase::Failed;
                    ResolveAction::Fail(err)
                },
                _ => {
                    self.phase = Phase::Fetching(src);
                    assert(self@ == s);
                    ResolveAction::Ignored
                },
            },
            Phase::Reading(src) => match event {
                ResolveEvent::ConfigRead(cfg) => {
                    let path = join(self.sources_dir.as_str(), src.dependency.name.as_str());
                    let name = src.dependency.name.clone();
                    let ghost arts = self.artifacts@;
                    self.artifacts.push(Artifact { path, dependency: src.dependency.duplicate() });
                    assert(self.artifacts@.map_values(|a: Artifact| a@) =~= arts.map_values(
                        |a: Artifact| a@,
                    ).push(
                        ArtifactView {
                            path: source_path(s.sources_dir, src.dependency.name@),
                            dependency: src.dependency,
                        },
                    ));
                    self.phase = Phase::Reading(src);
                    match cfg {
                        Some(c) => {
                            let ghost st = self.stack@;
                            let ghost an = self.ancestors@;
                            self.stack.push(
                                Frame { registries: c.registries, dependencies: c.dependencies, next: 0 },
                            );
                            self.ancestors.push(name);
                            assert(self.stack@.map_values(|f: Frame| f@) =~= st.map_values(
                                |f: Frame| f@,
                            ).push(
                                FrameView {
                                    registries: c.registries@,
                                    dependencies: c.dependencies@,
                                    next: 0,
                                },
                            ));
                            assert(views(self.ancestors@) =~= views(an).push(name@));
                        },
                        None => {},
                    }
                    self.advance()
                },
                ResolveEvent::Failed(err) => {
                    self.phase = Phase::Failed;
                    ResolveAction::Fail(err)
                },
                _ => {
                    self.phase = Phase::Reading(src);
                    assert(self@ == s);
                    ResolveAction::Ignored
                },
            },
            Phase::Done => {
                self.phase = Phase::Done;
                assert(self@ == s);
                ResolveAction::Ignored
            },
            Phase::Failed => {
                self.phase = Phase::Failed;
                assert(self@ == s);
                ResolveAction::Ignored
            },
        }
    }

    /// Whether the walk is complete.
    pub fn is_done(&self) -> (r: bool)
        ensures
            r == (self@.phase is Done),
    {
        match self.phase {
            Phase::Done => true,
            _ => false,
        }
    }

    /// The resolved artifacts, in pre-order.
    pub fn into_artifacts(self) -> (r: Vec<Artifact>)
        ensures
            r@.map_values(|a: Artifact| a@) == self@.artifacts,
    {
        self.artifacts
    }
}

/// The dependency list of a configuration, ready to be resolved.
pub struct DependencySourceFetcher {
    pub registries: Vec<(String, Registry)>,
    pub dependencies: Vec<Dependency>,
}

impl DependencySourceFetcher {
    pub fn new(registries: Vec<(String, Registry)>, dependencies: Vec<Dependency>) -> (r: DependencySourceFetcher)
        ensures
            r.registries == registries,
            r.dependencies == dependencies,
    {
        DependencySourceFetcher { registries, dependencies }
    }

    /// Starts resolving into `sources_dir`; drive the result with
    /// `DependencyResolver::resolve`, beginning with `ResolveEvent::Start`.
    pub fn fetch(self, sources_dir: String) -> (r: DependencyResolver)
        ensures
            r@ == (ResolverView {
                sources_dir: sources_dir@,
                stack: seq![
                    FrameView {
                        registries: self.registries@,
                        dependencies: self.dependencies@,
                        next: 0,
                    },
                ],
                ancestors: Seq::empty(),
                artifacts: Seq::empty(),
                phase: Phase::Idle,
            }),
    {
        DependencyResolver::new(self.registries, self.dependencies, sources_dir)
    }
}

/// The outcome of `advance`: the artifacts are kept, and the walk is complete,
/// failed, or probing a dependency that is not among them.
proof fn lemma_advance_outcome(s: ResolverView)
    ensures
        advance(s).0.artifacts == s.artifacts,
        advance(s).0.sources_dir == s.sources_dir,
        match advance(s).0.phase {
            Phase::Done => advance(s).1 is Done,
            Phase::Failed => advance(s).1 is Fail,
            Phase::Probing(src) => !artifact_names(s.artifacts).contains(src.dependency.name@)
                && advance(s).1 is Probe,
            _ => false,
        },
    decreases s.stack.len(), remaining(s),
{
    if s.stack.len() > 0 {
        let top = s.stack.last();
        if !(0 <= top.next < top.dependencies.len()) {
            lemma_advance_outcome(
                ResolverView {
                    stack: s.stack.drop_last(),
                    ancestors: if s.ancestors.len() > 0 {
                        s.ancestors.drop_last()
                    } else {
                        s.ancestors
                    },
                    ..s
                },
            );
        } else {
            let s1 = ResolverView {
                stack: s.stack.update(s.stack.len() - 1, FrameView { next: top.next + 1, ..top }),
                ..s
            };
            lemma_advance_outcome(s1);
        }
    }
}

/// Only a report that a dependency's sources are absent leads to a fetch.
pub proof fn lemma_only_absent_sources_are_fetched(s: ResolverView, e: ResolveEvent)
    ensures
        next(s, e).1 is Fetch ==> e == ResolveEvent::Probed(false) && s.phase is Probing,
{
    lemma_advance_outcome(s);
    match s.phase {
        Phase::Reading(src) => {
            if let ResolveEvent::ConfigRead(cfg) = e {
                let s1 = ResolverView {
                    artifacts: s.artifacts.push(
                        ArtifactView {
                            path: source_path(s.sources_dir, src.dependency.name@),
                            dependency: src.dependency,
                        },
                    ),
                    ..s
                };
                lemma_advance_outcome(s1);
                if let Some(c) = cfg {
                    lemma_advance_outcome(
                        ResolverView {
                            stack: s1.stack.push(
                                FrameView {
                                    registries: c.registries@,
                                    dependencies: c.dependencies@,
                                    next: 0,
                                },
                            ),
                            ancestors: s1.ancestors.push(src.dependency.name@),
                            ..s1
                        },
                    );
                }
            }
        },
        _ => {},
    }
}

/// Idempotent fetch: sources that are already present are not fetched, and
/// the walk goes on exactly as it would have after fetching them, so a walk
/// over a populated source directory asks for no transport and resolves the
/// same artifacts.
pub proof fn lemma_present_sources_are_not_refetched(s: ResolverView)
    requires
        s.phase is Probing,
    ensures
        next(s, ResolveEvent::Probed(true)) == next(
            next(s, ResolveEvent::Probed(false)).0,
            ResolveEvent::Fetched,
        ),
        !(next(s, ResolveEvent::Probed(true)).1 is Fetch),
        next(s, ResolveEvent::Probed(false)).1 is Fetch,
{
}

/// A sequence of resolver states linked by events, each state the one `next`
/// gives, with the work asked for at each step.
pub open spec fn is_run(
    states: Seq<ResolverView>,
    events: Seq<ResolveEvent>,
    actions: Seq<ActionView>,
) -> bool {
    &&& states.len() == events.len() + 1
    &&& actions.len() == events.len()
    &&& forall|i: int|
        0 <= i < events.len() ==> #[trigger] next(states[i], events[i]) == (
            states[i + 1],
            actions[i],
        )
}

/// The dependencies fetched by a sequence of actions.
pub open spec fn fetched(actions: Seq<ActionView>) -> Set<Seq<char>>
    decreases actions.len(),
{
    if actions.len() == 0 {
        Set::empty()
    } else {
        match actions.last() {
            ActionView::Fetch { dependency, .. } => fetched(actions.drop_last()).insert(dependency),
            _ => fetched(actions.drop_last()),
        }
    }
}

/// Every dependency fetched so far is resolved, or is the one in hand.
spec fn fetches_accounted(s: ResolverView, f: Set<Seq<char>>) -> bool {
    match s.phase {
        Phase::Idle => forall|m: Seq<char>| f.contains(m) ==> artifact_names(s.artifacts).contains(m),
        Phase::Probing(src) => !artifact_names(s.artifacts).contains(src.dependency.name@) && forall|
            m: Seq<char>,
        | f.contains(m) ==> artifact_names(s.artifacts).contains(m),
        Phase::Fetching(src) | Phase::Reading(src) => forall|m: Seq<char>|
            f.contains(m) ==> artifact_names(s.artifacts).contains(m) || m
                == src.dependency.name@,
        _ => true,
    }
}

proof fn lemma_names_push(a: Seq<ArtifactView>, x: ArtifactView)
    ensures
        artifact_names(a.push(x)) == artifact_names(a).push(x.dependency.name@),
{
    assert(artifact_names(a.push(x)) =~= artifact_names(a).push(x.dependency.name@));
}

proof fn lemma_step_accounted(s: ResolverView, e: ResolveEvent, f: Set<Seq<char>>)
    requires
        fetches_accounted(s, f),
    ensures
        next(s, e).1 matches ActionView::Fetch { dependency, .. } ==> !f.contains(dependency)
            && fetches_accounted(next(s, e).0, f.insert(dependency)),
        !(next(s, e).1 is Fetch) ==> fetches_accounted(next(s, e).0, f),
{
    lemma_advance_outcome(s);
    match s.phase {
        Phase::Reading(src) => {
            if let ResolveEvent::ConfigRead(cfg) = e {
                let item = ArtifactView {
                    path: source_path(s.sources_dir, src.dependency.name@),
                    dependency: src.dependency,
                };
                let s1 = ResolverView { artifacts: s.artifacts.push(item), ..s };
                lemma_names_push(s.artifacts, item);
                lemma_advance_outcome(s1);
                assert forall|m: Seq<char>| f.contains(m) implies artifact_names(
                    s1.artifacts,
                ).contains(m) by {
                    if m == src.dependency.name@ {
                        assert(artifact_names(s1.artifacts).last() == m);
                    } else {
                        let j = choose|j: int|
                            0 <= j < artifact_names(s.artifacts).len() && artifact_names(
                                s.artifacts,
                            )[j] == m;
                        assert(artifact_names(s1.artifacts)[j] == m);
                    }
                }
                if let Some(c) = cfg {
                    lemma_advance_outcome(
                        ResolverView {
                            stack: s1.stack.push(
                                FrameView {
                                    registries: c.registries@,
                                    dependencies: c.dependencies@,
                                    next: 0,
                                },
                            ),
                            ancestors: s1.ancestors.push(src.dependency.name@),
                            ..s1
                        },
                    );
                }
            }
        },
        _ => {},
    }
}

/// Deduplication: within one walk, started fresh, no dependency is fetched
/// twice, however many dependency lists reference it.
pub proof fn lemma_each_dependency_fetched_once(
    states: Seq<ResolverView>,
    events: Seq<ResolveEvent>,
    actions: Seq<ActionView>,
    i: int,
    j: int,
)
    requires
        is_run(states, events, actions),
        states[0].phase is Idle,
        0 <= i < j < actions.len(),
        actions[i] is Fetch,
        actions[j] is Fetch,
    ensures
        actions[i]->Fetch_dependency != actions[j]->Fetch_dependency,
{
    lemma_run_accounted(states, events, actions, j);
    lemma_step_accounted(states[j], events[j], fetched(actions.subrange(0, j)));
    assert(next(states[j], events[j]) == (states[j + 1], actions[j]));
    lemma_fetched_contains(actions.subrange(0, j), i);
}

proof fn lemma_fetched_contains(actions: Seq<ActionView>, i: int)
    requires
        0 <= i < actions.len(),
        actions[i] is Fetch,
    ensures
        fetched(actions).contains(actions[i]->Fetch_dependency),
    decreases actions.len(),
{
    if i < actions.len() - 1 {
        lemma_fetched_contains(actions.drop_last(), i);
    }
}

proof fn lemma_run_accounted(
    states: Seq<ResolverView>,
    events: Seq<ResolveEvent>,
    actions: Seq<ActionView>,
    k: int,
)
    requires
        is_run(states, events, actions),
        states[0].phase is Idle,
        0 <= k <= actions.len(),
    ensures
        fetches_accounted(states[k], fetched(actions.subrange(0, k))),
    decreases k,
{
    if k == 0 {
        assert(fetched(actions.subrange(0, 0)) == Set::<Seq<char>>::empty());
    } else {
        lemma_run_accounted(states, events, actions, k - 1);
        let f = fetched(actions.subrange(0, k - 1));
        lemma_step_accounted(states[k - 1], events[k - 1], f);
        assert(next(states[k - 1], events[k - 1]) == (states[k], actions[k - 1]));
        assert(actions.subrange(0, k).drop_last() =~= actions.subrange(0, k - 1));
    }
}

/// The answer a disk gives to a piece of work: whether the dependency's
/// sources are present (as `present` says), that a fetch succeeded, and the
/// dependency's configuration (as `configs` gives it); any other work is
/// answered by starting.
pub open spec fn answer(
    a: ActionView,
    present: spec_fn(Seq<char>) -> bool,
    configs: spec_fn(Seq<char>) -> Option<Config>,
) -> ResolveEvent {
    match a {
        ActionView::Probe { dependency, .. } => ResolveEvent::Probed(present(dependency)),
        ActionView::Fetch { .. } => ResolveEvent::Fetched,
        ActionView::ReadConfig { dependency, .. } => ResolveEvent::ConfigRead(configs(dependency)),
        _ => ResolveEvent::Start,
    }
}

/// The state and the work asked for after `n` steps of a walk from `s`, each
/// step answering the work asked for before it; a walk begins with
/// `ActionView::Ignored`, which is answered by starting.
pub open spec fn walk(
    s: ResolverView,
    a: ActionView,
    present: spec_fn(Seq<char>) -> bool,
    configs: spec_fn(Seq<char>) -> Option<Config>,
    n: nat,
) -> (ResolverView, ActionView)
    decreases n,
{
    if n == 0 {
        (s, a)
    } else {
        let (t, b) = walk(s, a, present, configs, (n - 1) as nat);
        next(t, answer(b, present, configs))
    }
}

/// Every source is present.
pub open spec fn populated() -> spec_fn(Seq<char>) -> bool {
    |name: Seq<char>| true
}

/// Work asked for after a step fits the state it leaves: a probe leaves the
/// resolver probing, a fetch leaves it fetching.
proof fn lemma_action_fits_state(s: ResolverView, e: ResolveEvent)
    ensures
        next(s, e).1 is Probe ==> next(s, e).0.phase is Probing,
        next(s, e).1 is Fetch ==> next(s, e).0.phase is Fetching,
{
    lemma_advance_outcome(s);
    match s.phase {
        Phase::Reading(src) => {
            if let ResolveEvent::ConfigRead(cfg) = e {
                let s1 = ResolverView {
                    artifacts: s.artifacts.push(
                        ArtifactView {
                            path: source_path(s.sources_dir, src.dependency.name@),
                            dependency: src.dependency,
                        },
                    ),
                    ..s
                };
                lemma_advance_outcome(s1);
                if let Some(c) = cfg {
                    lemma_advance_outcome(
                        ResolverView {
                            stack: s1.stack.push(
                                FrameView {
                                    registries: c.registries@,
                                    dependencies: c.dependencies@,
                                    next: 0,
                                },
                            ),
                            ancestors: s1.ancestors.push(src.dependency.name@),
                            ..s1
                        },
                    );
                }
            }
        },
        _ => {},
    }
}

/// The walk over a populated disk keeps pace with any walk over the same
/// configurations: after `n` steps of the other walk it stands where that walk
/// stands, or, if that walk is in the middle of a fetch, where the fetch leads.
proof fn lemma_populated_walk_keeps_pace(
    s: ResolverView,
    present: spec_fn(Seq<char>) -> bool,
    configs: spec_fn(Seq<char>) -> Option<Config>,
    n: nat,
) -> (m: nat)
    ensures
        walk(s, ActionView::Ignored, populated(), configs, m) == walk(
            s,
            ActionView::Ignored,
            present,
            configs,
            n,
        ) || (walk(s, ActionView::Ignored, present, configs, n).1 is Fetch && walk(
            s,
            ActionView::Ignored,
            populated(),
            configs,
            m,
        ) == next(walk(s, ActionView::Ignored, present, configs, n).0, ResolveEvent::Fetched)),
    decreases n,
{
    if n == 0 {
        0
    } else {
        let k = lemma_populated_walk_keeps_pace(s, present, configs, (n - 1) as nat);
        let (t, b) = walk(s, ActionView::Ignored, present, configs, (n - 1) as nat);
        if walk(s, ActionView::Ignored, populated(), configs, k) == (t, b) {
            if n - 1 > 0 {
                let (t0, b0) = walk(s, ActionView::Ignored, present, configs, (n - 2) as nat);
                lemma_action_fits_state(t0, answer(b0, present, configs));
            }
            match b {
                ActionView::Probe { .. } => {
                    assert(t.phase is Probing);
                    lemma_present_sources_are_not_refetched(t);
                    k + 1
                },
                _ => {
                    assert(answer(b, present, configs) == answer(b, populated(), configs));
                    k + 1
                },
            }
        } else {
            k
        }
    }
}

/// Idempotent fetch, over whole walks: a walk over a disk where every
/// dependency's sources are already present asks for no fetch, and any walk
/// over the same configurations that completes is matched by it: it completes
/// too, with the same artifacts.
pub proof fn lemma_populated_walk(
    s: ResolverView,
    present: spec_fn(Seq<char>) -> bool,
    configs: spec_fn(Seq<char>) -> Option<Config>,
    n: nat,
)
    ensures
        !(walk(s, ActionView::Ignored, populated(), configs, n).1 is Fetch),
        walk(s, ActionView::Ignored, present, configs, n).1 is Done ==> exists|m: nat|
            #[trigger] walk(s, ActionView::Ignored, populated(), configs, m) == walk(
                s,
                ActionView::Ignored,
                present,
                configs,
                n,
            ),
{
    if n > 0 {
        let (t, b) = walk(s, ActionView::Ignored, populated(), configs, (n - 1) as nat);
        lemma_only_absent_sources_are_fetched(t, answer(b, populated(), configs));
    }
    let m = lemma_populated_walk_keeps_pace(s, present, configs, n);
    if walk(s, ActionView::Ignored, present, configs, n).1 is Done {
        assert(walk(s, ActionView::Ignored, populated(), configs, m) == walk(
            s,
            ActionView::Ignored,
            present,
            configs,
            n,
        ));
    }
}

} // verus!
