use cargo_plumbing::locate::{
    effective_start, json_record_with, locate_with, render, LocateProject, LocateStep, MessageFormat,
};
use cargo_plumbing::marker::{classify_manifest, declares_workspace, starts_with_marker};
use cargo_plumbing::path::{same_text, ProjectPath};
use cargo_plumbing::search::{search_with, Candidate, SearchError, SearchMode, UpwardSearch, SearchStep};

fn abs(parts: &[&str]) -> ProjectPath {
    ProjectPath::new(true, parts.iter().map(|p| p.to_string()).collect())
}

fn text(p: &ProjectPath) -> String {
    p.to_text()
}

#[test]
fn nearest_manifest_above_start() {
    // /a/Cargo.toml, /a/b without one, start /a/b
    let start = abs(&["a", "b"]);
    let probes = vec![Candidate::Absent, Candidate::Manifest, Candidate::Absent];
    let r = locate_with(&start, false, &probes, &vec![]).unwrap();
    assert_eq!(text(&r), "/a/Cargo.toml");
}

#[test]
fn nearer_manifest_wins_over_farther() {
    let start = abs(&["a", "b"]);
    let probes = vec![Candidate::Manifest, Candidate::WorkspaceManifest, Candidate::Manifest];
    let r = locate_with(&start, false, &probes, &vec![]).unwrap();
    assert_eq!(text(&r), "/a/b/Cargo.toml");
}

#[test]
fn workspace_root_above_member() {
    // /a/Cargo.toml declares [workspace], /a/b/Cargo.toml does not, start /a/b
    let root = "[workspace]\nmembers = [\"b\"]\n";
    let member = "[package]\nname = \"b\"\n";
    let start = abs(&["a", "b"]);
    let manifests = vec![Candidate::Manifest, Candidate::Manifest, Candidate::Absent];
    let workspaces = vec![classify_manifest(member), classify_manifest(root), Candidate::Absent];
    let r = locate_with(&start, true, &manifests, &workspaces).unwrap();
    assert_eq!(text(&r), "/a/Cargo.toml");
}

#[test]
fn no_manifest_is_not_found() {
    let start = abs(&["x"]);
    let probes = vec![Candidate::Absent, Candidate::Absent];
    assert_eq!(locate_with(&start, false, &probes, &vec![]).err(), Some(SearchError::NotFound));
    assert_eq!(
        search_with(SearchMode::Workspace, &start, &probes).err(),
        Some(SearchError::NotFound)
    );
}

#[test]
fn manifests_without_marker_are_not_a_workspace() {
    let start = abs(&["a", "b"]);
    let manifests = vec![Candidate::Manifest, Candidate::Absent, Candidate::Absent];
    let workspaces = vec![Candidate::Manifest, Candidate::Absent, Candidate::Manifest];
    assert_eq!(
        locate_with(&start, true, &manifests, &workspaces).err(),
        Some(SearchError::NotAWorkspace)
    );
}

#[test]
fn relative_start_reaches_empty_path() {
    let start = ProjectPath::new(false, vec!["a".to_string()]);
    let probes = vec![Candidate::Absent, Candidate::Manifest];
    let r = locate_with(&start, false, &probes, &vec![]).unwrap();
    assert_eq!(text(&r), "Cargo.toml");
}

#[test]
fn state_machine_probes_upward() {
    let mut s = UpwardSearch::new(SearchMode::Manifest, abs(&["a", "b"]));
    assert_eq!(text(&s.candidate()), "/a/b/Cargo.toml");
    match s.observe(Candidate::Absent) {
        SearchStep::Probe(p) => assert_eq!(text(&p), "/a/Cargo.toml"),
        _ => panic!("expected a probe"),
    }
    match s.observe(Candidate::Absent) {
        SearchStep::Probe(p) => assert_eq!(text(&p), "/Cargo.toml"),
        _ => panic!("expected a probe"),
    }
    match s.observe(Candidate::Absent) {
        SearchStep::Failed(e) => assert_eq!(e, SearchError::NotFound),
        _ => panic!("expected a failure"),
    }
}

#[test]
fn locate_request_runs_both_searches() {
    let mut l = LocateProject::new(abs(&["a", "b"]), true);
    assert!(!l.wants_content());
    assert_eq!(text(&l.candidate()), "/a/b/Cargo.toml");
    match l.observe(Candidate::Manifest) {
        LocateStep::Probe(p) => assert_eq!(text(&p), "/a/b/Cargo.toml"),
        _ => panic!("expected a probe"),
    }
    assert!(l.wants_content());
    match l.observe(Candidate::Manifest) {
        LocateStep::Probe(p) => assert_eq!(text(&p), "/a/Cargo.toml"),
        _ => panic!("expected a probe"),
    }
    match l.observe(Candidate::WorkspaceManifest) {
        LocateStep::Done(p) => assert_eq!(text(&p), "/a/Cargo.toml"),
        _ => panic!("expected the result"),
    }
}

#[test]
fn explicit_manifest_file_equals_its_directory() {
    let cwd = abs(&["home"]);
    let from_file = effective_start(Some(abs(&["a", "b", "Cargo.toml"])), true, abs(&["home"]));
    let from_dir = effective_start(Some(abs(&["a", "b"])), false, cwd);
    assert_eq!(text(&from_file), "/a/b");
    assert_eq!(text(&from_file), text(&from_dir));
}

#[test]
fn explicit_path_not_a_file_is_used_verbatim() {
    let r = effective_start(Some(abs(&["a", "Cargo.toml"])), false, abs(&["home"]));
    assert_eq!(text(&r), "/a/Cargo.toml");
    let r = effective_start(Some(abs(&["a", "other.toml"])), true, abs(&["home"]));
    assert_eq!(text(&r), "/a/other.toml");
    let r = effective_start(None, false, abs(&["home"]));
    assert_eq!(text(&r), "/home");
}

#[test]
fn render_plain_and_json() {
    let p = abs(&["a", "Cargo.toml"]);
    assert_eq!(render(&p, MessageFormat::Plain).unwrap(), "/a/Cargo.toml");
    assert_eq!(render(&p, MessageFormat::Json).unwrap(), "{\"root\":\"/a/Cargo.toml\"}");
}

#[test]
fn render_json_escapes_quotes() {
    let p = abs(&["a\"b", "Cargo.toml"]);
    assert_eq!(render(&p, MessageFormat::Json).unwrap(), "{\"root\":\"/a\\\"b/Cargo.toml\"}");
    assert_eq!(json_record_with("\"x\""), "{\"root\":\"x\"}");
}

#[test]
fn marker_detection() {
    assert!(starts_with_marker("[workspace]"));
    assert!(starts_with_marker("[workspace] # root"));
    assert!(!starts_with_marker("[workspace.package]"));
    assert!(!starts_with_marker("[package]"));
    assert!(!starts_with_marker("[work"));
    assert!(declares_workspace("[package]\n  [workspace]  \n"));
    assert!(declares_workspace("\t[workspace]\r\nmembers = []"));
    assert!(!declares_workspace("[package]\nname = \"x\"\n"));
    assert!(!declares_workspace("x = \"[workspace]\""));
    assert!(!declares_workspace(""));
    assert_eq!(classify_manifest("[workspace]"), Candidate::WorkspaceManifest);
    assert_eq!(classify_manifest("[package]"), Candidate::Manifest);
}

#[test]
fn path_helpers() {
    let p = abs(&["a", "b"]);
    assert!(p.ends_with_name("b"));
    assert!(!p.ends_with_name("a"));
    assert_eq!(text(&p.parent().unwrap()), "/a");
    assert!(abs(&[]).parent().is_none());
    assert_eq!(text(&abs(&[])), "/");
    assert_eq!(text(&p.join("c")), "/a/b/c");
    assert_eq!(text(&p.duplicate()), "/a/b");
    assert!(same_text("abc", "abc"));
    assert!(!same_text("abc", "abd"));
}
