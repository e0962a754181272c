//! Registry transport: how a dependency's sources (or a whole project) are
//! brought to a local path, by registry kind.
use vstd::prelude::*;

use crate::cli::{CloneArgs, CloneSource};
use crate::command::{push_arg, CommandLine, CommandView};
use crate::config::{Dependency, Registry};
use crate::path::{join, joined};
use crate::text::{cat3, lit, views};

verus! {

/// A fetch to perform: run a version-control command, or copy a directory tree.
pub enum TransportJob {
    Run(CommandLine),
    CopyTree { from: String, to: String },
}

/// A fetch, with texts for strings.
pub enum TransportView {
    Run(CommandView),
    CopyTree { from: Seq<char>, to: Seq<char> },
}

impl View for TransportJob {
    type V = TransportView;

    open spec fn view(&self) -> TransportView {
        match self {
            TransportJob::Run(c) => TransportView::Run(c@),
            TransportJob::CopyTree { from, to } => TransportView::CopyTree { from: from@, to: to@ },
        }
    }
}

/// `git clone <address> --single-branch --branch <branch> <destination>`.
pub open spec fn git_clone(address: Seq<char>, branch: Seq<char>, destination: Seq<char>) -> CommandView {
    CommandView {
        program: "git"@,
        args: seq!["clone"@, address, "--single-branch"@, "--branch"@, branch, destination],
    }
}

fn git_clone_command(address: &str, branch: &str, destination: &str) -> (r: CommandLine)
    ensures
        r@ == git_clone(address@, branch@, destination@),
{
    let mut args: Vec<String> = Vec::new();
    assert(views(args@) =~= Seq::<Seq<char>>::empty());
    push_arg(&mut args, "clone");
    push_arg(&mut args, address);
    push_arg(&mut args, "--single-branch");
    push_arg(&mut args, "--branch");
    push_arg(&mut args, branch);
    push_arg(&mut args, destination);
    let r = CommandLine { program: lit("git"), args };
    assert(r@.args =~= git_clone(address@, branch@, destination@).args);
    r
}

/// How a dependency is fetched from a registry into `artifact_path`: a remote
/// registry holds the dependency's repository at `<url>/<name>`; a local one
/// holds its tree at `<registry path>/<name>`.
pub open spec fn fetch_of(registry: Registry, dependency: Dependency, artifact_path: Seq<char>) -> TransportView {
    match registry {
        Registry::Git { url, branch } => TransportView::Run(
            git_clone(url@ + "/"@ + dependency.name@, branch@, artifact_path),
        ),
        Registry::FileSystem(root) => TransportView::CopyTree {
            from: joined(root@, dependency.name@),
            to: artifact_path,
        },
    }
}

pub fn fetch_git_dependency(url: &str, branch: &str, dependency: &Dependency, artifact_path: &str) -> (r: CommandLine)
    ensures
        r@ == git_clone(url@ + "/"@ + dependency.name@, branch@, artifact_path@),
{
    let address = cat3(url, "/", dependency.name.as_str());
    git_clone_command(address.as_str(), branch, artifact_path)
}

pub fn fetch_fs_dependency(repository_path: &str, dependency: &Dependency, artifact_path: &str) -> (r: TransportJob)
    ensures
        r@ == (TransportView::CopyTree {
            from: joined(repository_path@, dependency.name@),
            to: artifact_path@,
        }),
{
    TransportJob::CopyTree {
        from: join(repository_path, dependency.name.as_str()),
        to: lit(artifact_path),
    }
}

pub fn fetch_dependency(registry: &Registry, dependency: &Dependency, artifact_path: &str) -> (r: TransportJob)
    ensures
        r@ == fetch_of(*registry, *dependency, artifact_path@),
{
    match registry {
        Registry::Git { url, branch } => TransportJob::Run(
            fetch_git_dependency(url.as_str(), branch.as_str(), dependency, artifact_path),
        ),
        Registry::FileSystem(root) => fetch_fs_dependency(root.as_str(), dependency, artifact_path),
    }
}

/// How `clone` brings a project to its path.
pub open spec fn clone_of(args: CloneArgs) -> TransportView {
    match args.source {
        CloneSource::Git { url, branch } => TransportView::Run(git_clone(url@, branch@, args.path@)),
        CloneSource::FileSystem { from } => TransportView::CopyTree { from: from@, to: args.path@ },
    }
}

pub fn clone(clone_args: CloneArgs) -> (r: TransportJob)
    ensures
        r@ == clone_of(clone_args),
{
    match clone_args.source {
        CloneSource::Git { url, branch } => TransportJob::Run(
            git_clone_command(url.as_str(), branch.as_str(), clone_args.path.as_str()),
        ),
        CloneSource::FileSystem { from } => TransportJob::CopyTree { from, to: clone_args.path },
    }
}

} // verus!
