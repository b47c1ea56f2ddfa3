//! Whether a manifest's text declares a workspace.
//!
//! The test is line by line: a line declares a workspace when, with the
//! whitespace around it removed, it begins with the table header `[workspace]`.
//! This is no parse of the manifest; the header text inside some other value
//! also counts.
use vstd::prelude::*;

use crate::path::texts;
use crate::search::Candidate;

verus! {

/// The lines of a text, as `str::lines` splits it.
pub uninterp spec fn lines_of(s: Seq<char>) -> Seq<Seq<char>>;

/// A text without the whitespace at either end, as `str::trim` leaves it.
pub uninterp spec fn trimmed(s: Seq<char>) -> Seq<char>;

/// Relies on `str::lines`: the lines of the text without their line endings;
/// an empty text has none.
#[verifier::external_body]
fn split_lines(s: &str) -> (r: Vec<String>)
    ensures
        texts(r@) == lines_of(s@),
        s@.len() == 0 ==> r@.len() == 0,
{
    s.lines().map(|l| l.to_string()).collect()
}

/// Relies on `str::trim`: the text without leading and trailing whitespace.
#[verifier::external_body]
fn trim_text(s: &str) -> (r: String)
    ensures
        r@ == trimmed(s@),
{
    s.trim().to_string()
}

/// The header of the workspace table.
pub open spec fn workspace_marker() -> Seq<char> {
    seq!['[', 'w', 'o', 'r', 'k', 's', 'p', 'a', 'c', 'e', ']']
}

/// Whether a line begins with the workspace header.
pub open spec fn begins_with_marker(line: Seq<char>) -> bool {
    line.len() >= workspace_marker().len() && line.subrange(0, workspace_marker().len() as int)
        == workspace_marker()
}

/// Whether some line of the text, trimmed, begins with the workspace header.
pub open spec fn text_declares_workspace(text: Seq<char>) -> bool {
    exists|i: int|
        0 <= i < lines_of(text).len() && begins_with_marker(#[trigger] trimmed(lines_of(text)[i]))
}

/// Whether a (trimmed) line begins with the workspace header.
pub fn starts_with_marker(line: &str) -> (r: bool)
    ensures
        r == begins_with_marker(line@),
{
    proof {
        reveal_strlit("[workspace]");
    }
    let marker = "[workspace]";
    assert(marker@ =~= workspace_marker());
    let n = marker.unicode_len();
    if line.unicode_len() < n {
        return false;
    }
    let mut i: usize = 0;
    while i < n
        invariant
            n == workspace_marker().len(),
            marker@ == workspace_marker(),
            n <= line@.len(),
            i <= n,
            forall|j: int| 0 <= j < i ==> line@[j] == workspace_marker()[j],
        decreases n - i,
    {
        if line.get_char(i) != marker.get_char(i) {
            assert(line@.subrange(0, n as int)[i as int] != workspace_marker()[i as int]);
            return false;
        }
        i = i + 1;
    }
    assert(line@.subrange(0, n as int) =~= workspace_marker());
    true
}

/// Whether a manifest's text declares a workspace.
pub fn declares_workspace(content: &str) -> (r: bool)
    ensures
        r == text_declares_workspace(content@),
{
    let lines = split_lines(content);
    let mut i: usize = 0;
    while i < lines.len()
        invariant
            texts(lines@) == lines_of(content@),
            i <= lines@.len(),
            forall|j: int| 0 <= j < i ==> !begins_with_marker(#[trigger] trimmed(lines_of(content@)[j])),
        decreases lines@.len() - i,
    {
        let t = trim_text(lines[i].as_str());
        assert(lines_of(content@)[i as int] == lines@[i as int]@);
        if starts_with_marker(t.as_str()) {
            return true;
        }
        i = i + 1;
    }
    false
}

/// What a manifest file with this text is to a workspace search.
pub fn classify_manifest(content: &str) -> (r: Candidate)
    ensures
        r == (if text_declares_workspace(content@) {
            Candidate::WorkspaceManifest
        } else {
            Candidate::Manifest
        }),
{
    if declares_workspace(content) {
        Candidate::WorkspaceManifest
    } else {
        Candidate::Manifest
    }
}

} // verus!
