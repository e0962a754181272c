//! The header projector: which files of each dependency's source tree are
//! copied into the shared header directory, and where they go.
use vstd::prelude::*;

use crate::path::{has_extension, has_extension_spec, join, joined};
use crate::resolver::Artifact;

verus! {

/// A file to copy.
pub struct FileCopy {
    pub from: String,
    pub to: String,
}

/// A copy as texts.
pub struct CopyView {
    pub from: Seq<char>,
    pub to: Seq<char>,
}

impl View for FileCopy {
    type V = CopyView;

    open spec fn view(&self) -> CopyView {
        CopyView { from: self.from@, to: self.to@ }
    }
}

/// The header copies of one dependency: for each file of `files` (paths
/// relative to its `src` directory) with extension `h`, in order, a copy from
/// the source tree into `<header dir>/<name>/`, keeping the relative path.
pub open spec fn header_copies(
    source_root: Seq<char>,
    target_root: Seq<char>,
    files: Seq<Seq<char>>,
) -> Seq<CopyView>
    decreases files.len(),
{
    if files.len() == 0 {
        Seq::empty()
    } else {
        let rest = header_copies(source_root, target_root, files.drop_last());
        if has_extension_spec(files.last(), "h"@) {
            rest.push(
                CopyView { from: joined(source_root, files.last()), to: joined(target_root, files.last()) },
            )
        } else {
            rest
        }
    }
}

/// Projects the public headers of resolved dependencies into a shared directory.
pub struct DependencyIncludeFetcher<'a> {
    pub artifacts: &'a Vec<Artifact>,
}

impl<'a> DependencyIncludeFetcher<'a> {
    pub fn new(artifacts: &'a Vec<Artifact>) -> (r: DependencyIncludeFetcher<'a>)
        ensures
            r.artifacts == artifacts,
    {
        DependencyIncludeFetcher { artifacts }
    }

    /// The header copies of artifact `k`, whose `src` directory holds `files`.
    pub fn fetch_one(&self, k: usize, headers_dir: &str, files: &Vec<String>) -> (r: Vec<FileCopy>)
        requires
            k < self.artifacts@.len(),
        ensures
            r@.map_values(|c: FileCopy| c@) == header_copies(
                joined(self.artifacts@[k as int].path@, "src"@),
                joined(headers_dir@, self.artifacts@[k as int].dependency.name@),
                files@.map_values(|f: String| f@),
            ),
    {
        let artifact = &self.artifacts[k];
        let source_root = join(artifact.path.as_str(), "src");
        let target_root = join(headers_dir, artifact.dependency.name.as_str());
        let ghost rels = files@.map_values(|f: String| f@);
        let mut r: Vec<FileCopy> = Vec::new();
        let mut i: usize = 0;
        while i < files.len()
            invariant
                i <= files@.len(),
                rels == files@.map_values(|f: String| f@),
                r@.map_values(|c: FileCopy| c@) == header_copies(
                    source_root@,
                    target_root@,
                    rels.subrange(0, i as int),
                ),
            decreases files.len() - i,
        {
            assert(rels.subrange(0, i + 1).drop_last() =~= rels.subrange(0, i as int));
            assert(rels.subrange(0, i + 1).last() == files@[i as int]@);
            let ghost before = r@;
            if has_extension(files[i].as_str(), "h") {
                let c = FileCopy {
                    from: join(source_root.as_str(), files[i].as_str()),
                    to: join(target_root.as_str(), files[i].as_str()),
                };
                r.push(c);
                assert(r@.map_values(|c: FileCopy| c@) =~= before.map_values(|c: FileCopy| c@).push(
                    c@,
                ));
            }
            i = i + 1;
        }
        assert(rels.subrange(0, files@.len() as int) =~= rels);
        r
    }

    /// The header copies of every artifact, `listings[k]` holding the files of
    /// artifact `k`'s `src` directory.
    pub fn fetch(&self, headers_dir: &str, listings: &Vec<Vec<String>>) -> (r: Vec<Vec<FileCopy>>)
        requires
            listings@.len() == self.artifacts@.len(),
        ensures
            r@.len() == listings@.len(),
            forall|k: int|
                0 <= k < r@.len() ==> (#[trigger] r@[k])@.map_values(|c: FileCopy| c@) == header_copies(
                    joined(self.artifacts@[k].path@, "src"@),
                    joined(headers_dir@, self.artifacts@[k].dependency.name@),
                    listings@[k]@.map_values(|f: String| f@),
                ),
    {
        let mut r: Vec<Vec<FileCopy>> = Vec::new();
        let mut k: usize = 0;
        while k < listings.len()
            invariant
                k <= listings@.len() == self.artifacts@.len(),
                r@.len() == k,
                forall|j: int|
                    0 <= j < k ==> (#[trigger] r@[j])@.map_values(|c: FileCopy| c@) == header_copies(
                        joined(self.artifacts@[j].path@, "src"@),
                        joined(headers_dir@, self.artifacts@[j].dependency.name@),
                        listings@[j]@.map_values(|f: String| f@),
                    ),
            decreases listings.len() - k,
        {
            let copies = self.fetch_one(k, headers_dir, &listings[k]);
            r.push(copies);
            k = k + 1;
        }
        r
    }
}

/// The files of `paths` whose extension is `ext`, in order.
pub open spec fn with_extension(paths: Seq<Seq<char>>, ext: Seq<char>) -> Seq<Seq<char>>
    decreases paths.len(),
{
    if paths.len() == 0 {
        Seq::empty()
    } else if has_extension_spec(paths.last(), ext) {
        with_extension(paths.drop_last(), ext).push(paths.last())
    } else {
        with_extension(paths.drop_last(), ext)
    }
}

/// Selects, from the files found under a project's `src` directory, the
/// translation units: those with extension `extension`.
pub fn fetch_files(paths: &Vec<String>, extension: &str) -> (r: Vec<String>)
    ensures
        r@.map_values(|f: String| f@) == with_extension(paths@.map_values(|f: String| f@), extension@),
{
    let ghost all = paths@.map_values(|f: String| f@);
    let mut r: Vec<String> = Vec::new();
    let mut i: usize = 0;
    while i < paths.len()
        invariant
            i <= paths@.len(),
            all == paths@.map_values(|f: String| f@),
            r@.map_values(|f: String| f@) == with_extension(all.subrange(0, i as int), extension@),
        decreases paths.len() - i,
    {
        assert(all.subrange(0, i + 1).drop_last() =~= all.subrange(0, i as int));
        assert(all.subrange(0, i + 1).last() == paths@[i as int]@);
        let ghost before = r@;
        if has_extension(paths[i].as_str(), extension) {
            r.push(paths[i].clone());
            assert(r@.map_values(|f: String| f@) =~= before.map_values(|f: String| f@).push(
                paths@[i as int]@,
            ));
        }
        i = i + 1;
    }
    assert(all.subrange(0, paths@.len() as int) =~= all);
    r
}

} // verus!
