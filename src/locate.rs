//! Locating a project's manifest, or its workspace's root manifest, and
//! rendering where it is.
use vstd::prelude::*;

use crate::path::{ancestor, path_text, ProjectPath};
use crate::search::{
    accepts, lemma_first_hit, manifest_file_name, manifest_name, search_result, search_with, Candidate,
    SearchError, SearchMode, SearchStep, UpwardSearch,
};

verus! {

/// How the location is printed.
#[derive(Clone, Copy, Debug, PartialEq, Eq, Structural)]
pub enum MessageFormat {
    /// One JSON object with the path under `root`.
    Json,
    /// The path text alone.
    Plain,
}

/// The manifest file in directory `d`.
pub open spec fn manifest_in(d: (bool, Seq<Seq<char>>)) -> (bool, Seq<Seq<char>>) {
    (d.0, d.1.push(manifest_name()))
}

/// Whether a path's last component is the manifest's file name.
pub open spec fn names_manifest(p: (bool, Seq<Seq<char>>)) -> bool {
    p.1.len() > 0 && p.1.last() == manifest_name()
}

/// The view of an optional path.
pub open spec fn opt_view(o: Option<ProjectPath>) -> Option<(bool, Seq<Seq<char>>)> {
    match o {
        Some(p) => Some(p@),
        None => None,
    }
}

/// The directory a search starts from: the directory of an explicit manifest
/// file, else the explicit path as it is, else the working directory.
pub open spec fn start_dir(
    explicit: Option<(bool, Seq<Seq<char>>)>,
    explicit_is_file: bool,
    cwd: (bool, Seq<Seq<char>>),
) -> (bool, Seq<Seq<char>>) {
    match explicit {
        Some(p) => if explicit_is_file && names_manifest(p) {
            ancestor(p, 1)
        } else {
            p
        },
        None => cwd,
    }
}

/// The directory a search starts from, given the explicit path if any
/// (and whether a regular file is there) and the working directory.
pub fn effective_start(explicit: Option<ProjectPath>, explicit_is_file: bool, cwd: ProjectPath) -> (r:
    ProjectPath)
    ensures
        r@ == start_dir(opt_view(explicit), explicit_is_file, cwd@),
{
    match explicit {
        Some(p) => {
            if explicit_is_file && p.ends_with_name(manifest_file_name()) {
                match p.parent() {
                    Some(d) => d,
                    None => p,
                }
            } else {
                p
            }
        },
        None => cwd,
    }
}

/// The manifest path printed for a request: the nearest manifest from
/// `start`, or with `workspace` the root manifest of the nearest workspace
/// from that manifest's directory. `manifests[k]` and `workspaces[k]` are what
/// lies `k` steps up from where each search starts.
pub open spec fn locate_result(
    start: (bool, Seq<Seq<char>>),
    workspace: bool,
    manifests: Seq<Candidate>,
    workspaces: Seq<Candidate>,
) -> Result<(bool, Seq<Seq<char>>), SearchError> {
    match search_result(SearchMode::Manifest, start, manifests) {
        Ok(d) => if workspace {
            match search_result(SearchMode::Workspace, d, workspaces) {
                Ok(w) => Ok(manifest_in(w)),
                Err(e) => Err(e),
            }
        } else {
            Ok(manifest_in(d))
        },
        Err(e) => Err(e),
    }
}

/// A request to locate a manifest, run one probe at a time.
pub struct LocateProject {
    pub workspace: bool,
    pub search: UpwardSearch,
}

/// What a request asks for next, or how it ended.
pub enum LocateStep {
    /// Inspect this candidate manifest path and report what is there.
    Probe(ProjectPath),
    /// The manifest path to print.
    Done(ProjectPath),
    /// The request failed.
    Failed(SearchError),
}

impl LocateProject {
    /// The inner search is well formed; a workspace search runs only on request.
    pub open spec fn well_formed(&self) -> bool {
        &&& self.search.well_formed()
        &&& (self.search.mode == SearchMode::Workspace ==> self.workspace)
    }

    /// A request starting at `start`.
    pub fn new(start: ProjectPath, workspace: bool) -> (r: LocateProject)
        requires
            start@.1.len() < usize::MAX,
        ensures
            r.well_formed(),
            r.workspace == workspace,
            r.search.mode == SearchMode::Manifest,
            r.search.start@ == start@,
            r.search.depth == 0,
            !r.search.seen_manifest,
            !r.search.finished,
    {
        LocateProject { workspace, search: UpwardSearch::new(SearchMode::Manifest, start) }
    }

    /// The candidate manifest path to inspect first.
    pub fn candidate(&self) -> (r: ProjectPath)
        requires
            self.well_formed(),
        ensures
            r@ == manifest_in(self.search.dir@),
    {
        self.search.candidate()
    }

    /// Whether the next report must say if the manifest declares a workspace.
    pub fn wants_content(&self) -> (r: bool)
        ensures
            r == (self.search.mode == SearchMode::Workspace),
    {
        self.search.mode == SearchMode::Workspace
    }

    /// Takes what was found at the current candidate and moves on.
    pub fn observe(&mut self, c: Candidate) -> (r: LocateStep)
        requires
            old(self).well_formed(),
            !old(self).search.finished,
        ensures
            final(self).well_formed(),
            final(self).workspace == old(self).workspace,
            accepts(old(self).search.mode, c) && old(self).search.mode == SearchMode::Manifest
                && old(self).workspace ==> {
                &&& final(self).search.mode == SearchMode::Workspace
                &&& final(self).search.start@ == old(self).search.dir@
                &&& final(self).search.depth == 0
                &&& !final(self).search.seen_manifest
                &&& !final(self).search.finished
                &&& r matches LocateStep::Probe(p) && p@ == manifest_in(old(self).search.dir@)
            },
            accepts(old(self).search.mode, c) && !(old(self).search.mode == SearchMode::Manifest
                && old(self).workspace) ==> final(self).search.finished && (r matches LocateStep::Done(
                m,
            ) && m@ == manifest_in(old(self).search.dir@)),
            !accepts(old(self).search.mode, c) && old(self).search.depth
                < old(self).search.start@.1.len() ==> {
                &&& final(self).search.mode == old(self).search.mode
                &&& final(self).search.start@ == old(self).search.start@
                &&& !final(self).search.finished
                &&& final(self).search.depth == old(self).search.depth + 1
                &&& final(self).search.seen_manifest == (old(self).search.seen_manifest || c
                    != Candidate::Absent)
                &&& r matches LocateStep::Probe(p) && p@ == manifest_in(final(self).search.dir@)
            },
            !accepts(old(self).search.mode, c) && old(self).search.depth
                == old(self).search.start@.1.len() ==> final(self).search.finished && r
                == LocateStep::Failed(
                crate::search::failure(
                    old(self).search.mode,
                    old(self).search.seen_manifest || c != Candidate::Absent,
                ),
            ),
    {
        let mode = self.search.mode;
        match self.search.observe(c) {
            SearchStep::Probe(p) => LocateStep::Probe(p),
            SearchStep::Failed(e) => LocateStep::Failed(e),
            SearchStep::Found(d) => {
                if mode == SearchMode::Manifest && self.workspace {
                    self.search = UpwardSearch::new(SearchMode::Workspace, d);
                    LocateStep::Probe(self.search.candidate())
                } else {
                    LocateStep::Done(d.join(manifest_file_name()))
                }
            },
        }
    }
}

/// Runs a whole request from `start`: `manifests` are what the manifest
/// search meets from `start` up, `workspaces` what the workspace search meets
/// from the found manifest's directory up; each ends with the root's entry.
pub fn locate_with(
    start: &ProjectPath,
    workspace: bool,
    manifests: &Vec<Candidate>,
    workspaces: &Vec<Candidate>,
) -> (r: Result<ProjectPath, SearchError>)
    requires
        start@.1.len() < usize::MAX,
        manifests@.len() == start@.1.len() + 1,
        workspace ==> (search_result(SearchMode::Manifest, start@, manifests@) matches Ok(d)
            && workspaces@.len() == d.1.len() + 1),
    ensures
        crate::search::result_view(r) == locate_result(start@, workspace, manifests@, workspaces@),
{
    proof {
        lemma_first_hit(SearchMode::Manifest, manifests@, 0);
    }
    match search_with(SearchMode::Manifest, start, manifests) {
        Ok(d) => {
            proof {
                lemma_first_hit(SearchMode::Workspace, workspaces@, 0);
            }
            if workspace {
                match search_with(SearchMode::Workspace, &d, workspaces) {
                    Ok(w) => Ok(w.join(manifest_file_name())),
                    Err(e) => Err(e),
                }
            } else {
                Ok(d.join(manifest_file_name()))
            }
        },
        Err(e) => Err(e),
    }
}

/// Supplying the manifest file itself as the explicit path is the same as
/// supplying its directory: the search starts at the same place and so ends
/// the same way.
pub proof fn lemma_manifest_path_as_start(
    dir: (bool, Seq<Seq<char>>),
    cwd: (bool, Seq<Seq<char>>),
    mode: SearchMode,
    probes: Seq<Candidate>,
)
    ensures
        start_dir(Some(manifest_in(dir)), true, cwd) == start_dir(Some(dir), false, cwd),
        search_result(mode, start_dir(Some(manifest_in(dir)), true, cwd), probes) == search_result(
            mode,
            start_dir(Some(dir), false, cwd),
            probes,
        ),
{
    assert(ancestor(manifest_in(dir), 1).1 =~= dir.1);
}

/// The JSON string literal of a text, as `serde_json::to_string` writes it.
pub uninterp spec fn json_string_text(s: Seq<char>) -> Seq<char>;

/// Relies on `serde_json::to_string` on a `str`: the text quoted and escaped as a
/// JSON string; an error becomes `None`.
#[verifier::external_body]
fn json_quote(s: &str) -> (r: Option<String>)
    ensures
        r matches Some(t) ==> t@ == json_string_text(s@),
{
    serde_json::to_string(s).ok()
}

/// The text `{"root":` that opens the JSON rendering.
pub open spec fn json_open() -> Seq<char> {
    seq!['{', '"', 'r', 'o', 'o', 't', '"', ':']
}

/// The JSON rendering around an already quoted path.
pub open spec fn json_record(quoted: Seq<char>) -> Seq<char> {
    json_open() + quoted + seq!['}']
}

/// The one-line JSON object that carries an already quoted path under `root`.
pub fn json_record_with(quoted: &str) -> (r: String)
    ensures
        r@ == json_record(quoted@),
{
    proof {
        reveal_strlit("{\"root\":");
        reveal_strlit("}");
    }
    let mut r = String::from_str("{\"root\":");
    r.append(quoted);
    r.append("}");
    assert(r@ =~= json_record(quoted@));
    r
}

/// The location of `path` as printed in `format`; `None` only where the JSON
/// quoting failed.
pub fn render(path: &ProjectPath, format: MessageFormat) -> (r: Option<String>)
    ensures
        format == MessageFormat::Plain ==> (r matches Some(t) && t@ == path_text(path@)),
        format == MessageFormat::Json ==> (r matches Some(t) ==> t@ == json_record(
            json_string_text(path_text(path@)),
        )),
{
    let text = path.to_text();
    match format {
        MessageFormat::Plain => Some(text),
        MessageFormat::Json => match json_quote(text.as_str()) {
            Some(q) => Some(json_record_with(q.as_str())),
            None => None,
        },
    }
}

} // verus!
