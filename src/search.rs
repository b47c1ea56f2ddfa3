//! The upward search for a manifest, one directory at a time.
//!
//! The search does not touch the filesystem itself: it names the candidate
//! manifest to inspect, and is told what was found there.
use vstd::prelude::*;

use crate::path::{ancestor, ProjectPath};

verus! {

/// The text of the manifest's file name.
pub open spec fn manifest_name() -> Seq<char> {
    seq!['C', 'a', 'r', 'g', 'o', '.', 't', 'o', 'm', 'l']
}

/// The manifest's file name.
pub fn manifest_file_name() -> (r: &'static str)
    ensures
        r@ == manifest_name(),
{
    proof {
        reveal_strlit("Cargo.toml");
    }
    let r = "Cargo.toml";
    assert(r@ =~= manifest_name());
    r
}

/// What a search looks for.
#[derive(Clone, Copy, Debug, PartialEq, Eq, Structural)]
pub enum SearchMode {
    /// The nearest manifest.
    Manifest,
    /// The nearest manifest that declares a workspace.
    Workspace,
}

/// What was found at one candidate manifest path.
#[derive(Clone, Copy, Debug, PartialEq, Eq, Structural)]
pub enum Candidate {
    /// No regular file is there.
    Absent,
    /// A manifest that declares no workspace.
    Manifest,
    /// A manifest that declares a workspace.
    WorkspaceManifest,
}

/// Why a search ended without a result.
#[derive(Clone, Copy, Debug, PartialEq, Eq, Structural)]
pub enum SearchError {
    /// No manifest on the way up to the root.
    NotFound,
    /// Manifests on the way up, but none declares a workspace.
    NotAWorkspace,
}

/// Whether a search in `mode` stops at a candidate.
pub open spec fn accepts(mode: SearchMode, c: Candidate) -> bool {
    match mode {
        SearchMode::Manifest => c != Candidate::Absent,
        SearchMode::Workspace => c == Candidate::WorkspaceManifest,
    }
}

/// The first position from `k` on whose candidate the search accepts.
pub open spec fn first_hit(mode: SearchMode, probes: Seq<Candidate>, k: nat) -> Option<nat>
    decreases probes.len() - k,
{
    if k >= probes.len() {
        None
    } else if accepts(mode, probes[k as int]) {
        Some(k)
    } else {
        first_hit(mode, probes, k + 1)
    }
}

/// Whether any of the candidates is a manifest.
pub open spec fn any_manifest(probes: Seq<Candidate>) -> bool {
    exists|j: int| 0 <= j < probes.len() && probes[j] != Candidate::Absent
}

/// The error of a search that found nothing.
pub open spec fn failure(mode: SearchMode, seen_manifest: bool) -> SearchError {
    if mode == SearchMode::Workspace && seen_manifest {
        SearchError::NotAWorkspace
    } else {
        SearchError::NotFound
    }
}

/// The outcome of a search from `start`, where `probes[k]` is what lies in the
/// directory `k` steps up: that directory, or why there is none.
pub open spec fn search_result(
    mode: SearchMode,
    start: (bool, Seq<Seq<char>>),
    probes: Seq<Candidate>,
) -> Result<(bool, Seq<Seq<char>>), SearchError> {
    match first_hit(mode, probes, 0) {
        Some(k) => Ok(ancestor(start, k)),
        None => Err(failure(mode, any_manifest(probes))),
    }
}

/// What the search asks for next, or how it ended.
pub enum SearchStep {
    /// Inspect this candidate manifest path and report what is there.
    Probe(ProjectPath),
    /// The search ended in this directory.
    Found(ProjectPath),
    /// The search reached the root without a result.
    Failed(SearchError),
}

/// A search upward from a start directory.
pub struct UpwardSearch {
    pub mode: SearchMode,
    pub start: ProjectPath,
    pub dir: ProjectPath,
    pub depth: usize,
    pub seen_manifest: bool,
    pub finished: bool,
}

impl UpwardSearch {
    /// The directory under inspection is `depth` steps above the start.
    pub open spec fn well_formed(&self) -> bool {
        &&& self.start@.1.len() < usize::MAX
        &&& self.depth <= self.start@.1.len()
        &&& self.dir@ == ancestor(self.start@, self.depth as nat)
    }

    /// A search from `start`, which first inspects `start` itself.
    pub fn new(mode: SearchMode, start: ProjectPath) -> (r: UpwardSearch)
        requires
            start@.1.len() < usize::MAX,
        ensures
            r.well_formed(),
            r.mode == mode,
            r.start@ == start@,
            r.depth == 0,
            !r.seen_manifest,
            !r.finished,
    {
        let dir = start.duplicate();
        assert(start@.1.subrange(0, start@.1.len() as int) =~= start@.1);
        UpwardSearch { mode, start, dir, depth: 0, seen_manifest: false, finished: false }
    }

    /// The manifest path in the directory under inspection.
    pub fn candidate(&self) -> (r: ProjectPath)
        requires
            self.well_formed(),
        ensures
            r@ == (self.dir@.0, self.dir@.1.push(manifest_name())),
    {
        self.dir.join(manifest_file_name())
    }

    /// Takes what was found at the current candidate and moves on.
    pub fn observe(&mut self, c: Candidate) -> (r: SearchStep)
        requires
            old(self).well_formed(),
            !old(self).finished,
        ensures
            final(self).well_formed(),
            final(self).mode == old(self).mode,
            final(self).start@ == old(self).start@,
            accepts(old(self).mode, c) ==> final(self).finished && (r matches SearchStep::Found(d)
                && d@ == ancestor(old(self).start@, old(self).depth as nat)),
            !accepts(old(self).mode, c) && old(self).depth < old(self).start@.1.len() ==> {
                &&& !final(self).finished
                &&& final(self).depth == old(self).depth + 1
                &&& final(self).seen_manifest == (old(self).seen_manifest || c != Candidate::Absent)
                &&& r matches SearchStep::Probe(p) && p@ == (final(self).dir@.0, final(self).dir@.1.push(manifest_name()))
            },
            !accepts(old(self).mode, c) && old(self).depth == old(self).start@.1.len() ==> final(self).finished
                && r == SearchStep::Failed(
                failure(old(self).mode, old(self).seen_manifest || c != Candidate::Absent),
            ),
    {
        let hit = match self.mode {
            SearchMode::Manifest => c != Candidate::Absent,
            SearchMode::Workspace => c == Candidate::WorkspaceManifest,
        };
        if hit {
            self.finished = true;
            return SearchStep::Found(self.dir.duplicate());
        }
        let seen = self.seen_manifest || c != Candidate::Absent;
        self.seen_manifest = seen;
        match self.dir.parent() {
            Some(up) => {
                self.dir = up;
                self.depth = self.depth + 1;
                assert(self.dir@ =~= ancestor(self.start@, self.depth as nat));
                SearchStep::Probe(self.candidate())
            },
            None => {
                self.finished = true;
                let e = if self.mode == SearchMode::Workspace && seen {
                    SearchError::NotAWorkspace
                } else {
                    SearchError::NotFound
                };
                SearchStep::Failed(e)
            },
        }
    }
}

/// The outcome of a search, with the directory as its view.
pub open spec fn result_view(r: Result<ProjectPath, SearchError>) -> Result<
    (bool, Seq<Seq<char>>),
    SearchError,
> {
    match r {
        Ok(d) => Ok(d@),
        Err(e) => Err(e),
    }
}

/// Runs a whole search from `start`, where `probes[k]` is what lies in the
/// directory `k` steps up; the root's entry comes last.
pub fn search_with(mode: SearchMode, start: &ProjectPath, probes: &Vec<Candidate>) -> (r: Result<
    ProjectPath,
    SearchError,
>)
    requires
        start@.1.len() < usize::MAX,
        probes@.len() == start@.1.len() + 1,
    ensures
        result_view(r) == search_result(mode, start@, probes@),
{
    let ghost start_view = start@;
    let mut s = UpwardSearch::new(mode, start.duplicate());
    let mut i: usize = 0;
    loop
        invariant
            s.well_formed(),
            !s.finished,
            s.mode == mode,
            s.start@ == start_view,
            start_view == start@,
            s.depth == i,
            probes@.len() == start_view.1.len() + 1,
            first_hit(mode, probes@, 0) == first_hit(mode, probes@, i as nat),
            s.seen_manifest == exists|j: int| 0 <= j < i && probes@[j] != Candidate::Absent,
        decreases probes@.len() - i,
    {
        let c = probes[i];
        let ghost prev_seen = s.seen_manifest;
        let step = s.observe(c);
        match step {
            SearchStep::Found(d) => {
                assert(first_hit(mode, probes@, i as nat) == Some(i as nat));
                return Ok(d);
            },
            SearchStep::Failed(e) => {
                proof {
                    assert(first_hit(mode, probes@, (i + 1) as nat) == None::<nat>);
                    if prev_seen || c != Candidate::Absent {
                        let j = if c != Candidate::Absent { i as int } else {
                            choose|j: int| 0 <= j < i && probes@[j] != Candidate::Absent
                        };
                        assert(probes@[j] != Candidate::Absent);
                    } else {
                        assert forall|j: int| 0 <= j < probes@.len() implies probes@[j] == Candidate::Absent by {
                            if j < i {
                            }
                        }
                    }
                }
                return Err(e);
            },
            SearchStep::Probe(_) => {
                i = i + 1;
                assert(s.seen_manifest == exists|j: int| 0 <= j < i && probes@[j] != Candidate::Absent) by {
                    if c != Candidate::Absent {
                        assert(probes@[i - 1] != Candidate::Absent);
                    }
                }
            },
        }
    }
}

/// Where a search returns a position, the search accepts what lies there and
/// nothing below it; where it returns none, it accepts nothing from `k` on.
pub proof fn lemma_first_hit(mode: SearchMode, probes: Seq<Candidate>, k: nat)
    ensures
        first_hit(mode, probes, k) matches Some(h) ==> {
            &&& k <= h < probes.len()
            &&& accepts(mode, probes[h as int])
            &&& forall|j: int| k <= j < h ==> !accepts(mode, #[trigger] probes[j])
        },
        first_hit(mode, probes, k) is None ==> forall|j: int|
            k <= j < probes.len() ==> !accepts(mode, #[trigger] probes[j]),
    decreases probes.len() - k,
{
    if k < probes.len() && !accepts(mode, probes[k as int]) {
        lemma_first_hit(mode, probes, k + 1);
    }
}

/// For every directory tree with a manifest at or above the start, the search
/// for a manifest ends at the nearest one: no manifest lies below it.
pub proof fn lemma_nearest_manifest(start: (bool, Seq<Seq<char>>), probes: Seq<Candidate>)
    requires
        probes.len() == start.1.len() + 1,
        any_manifest(probes),
    ensures
        exists|k: nat|
            {
                &&& k <= start.1.len()
                &&& search_result(SearchMode::Manifest, start, probes) == Ok::<_, SearchError>(
                    ancestor(start, k),
                )
                &&& probes[k as int] != Candidate::Absent
                &&& forall|j: int| 0 <= j < k ==> #[trigger] probes[j] == Candidate::Absent
            },
{
    lemma_first_hit(SearchMode::Manifest, probes, 0);
    let j = choose|j: int| 0 <= j < probes.len() && probes[j] != Candidate::Absent;
    assert(accepts(SearchMode::Manifest, probes[j]));
    let k = first_hit(SearchMode::Manifest, probes, 0)->Some_0;
    assert forall|i: int| 0 <= i < k implies #[trigger] probes[i] == Candidate::Absent by {
        assert(!accepts(SearchMode::Manifest, probes[i]));
    }
}

/// With no manifest anywhere from the start up to the root, a search in
/// either mode fails with `NotFound`.
pub proof fn lemma_no_manifest_not_found(
    mode: SearchMode,
    start: (bool, Seq<Seq<char>>),
    probes: Seq<Candidate>,
)
    requires
        probes.len() == start.1.len() + 1,
        forall|j: int| 0 <= j < probes.len() ==> probes[j] == Candidate::Absent,
    ensures
        search_result(mode, start, probes) == Err::<(bool, Seq<Seq<char>>), _>(SearchError::NotFound),
{
    lemma_first_hit(mode, probes, 0);
    if first_hit(mode, probes, 0) is Some {
        let h = first_hit(mode, probes, 0)->Some_0;
        assert(probes[h as int] == Candidate::Absent);
    }
}

/// With manifests on the way up but none that declares a workspace, the
/// search for a workspace fails with `NotAWorkspace`.
pub proof fn lemma_no_marker_not_a_workspace(start: (bool, Seq<Seq<char>>), probes: Seq<Candidate>)
    requires
        probes.len() == start.1.len() + 1,
        any_manifest(probes),
        forall|j: int| 0 <= j < probes.len() ==> probes[j] != Candidate::WorkspaceManifest,
    ensures
        search_result(SearchMode::Workspace, start, probes) == Err::<(bool, Seq<Seq<char>>), _>(
            SearchError::NotAWorkspace,
        ),
{
    lemma_first_hit(SearchMode::Workspace, probes, 0);
    if first_hit(SearchMode::Workspace, probes, 0) is Some {
        let h = first_hit(SearchMode::Workspace, probes, 0)->Some_0;
        assert(probes[h as int] != Candidate::WorkspaceManifest);
    }
}

} // verus!
