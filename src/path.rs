//! Filesystem paths as an absolute flag and a sequence of components.
use vstd::prelude::*;

verus! {

/// A path: whether it starts at the root, and its components from the outermost down.
pub struct ProjectPath {
    pub absolute: bool,
    pub components: Vec<String>,
}

/// The texts of a sequence of strings.
pub open spec fn texts(v: Seq<String>) -> Seq<Seq<char>> {
    v.map_values(|s: String| s@)
}

impl View for ProjectPath {
    type V = (bool, Seq<Seq<char>>);

    open spec fn view(&self) -> (bool, Seq<Seq<char>>) {
        (self.absolute, texts(self.components@))
    }
}

/// The path that `k` steps up from `p` reaches (`k` at most the number of components).
pub open spec fn ancestor(p: (bool, Seq<Seq<char>>), k: nat) -> (bool, Seq<Seq<char>>) {
    (p.0, p.1.subrange(0, p.1.len() - k))
}

/// The text of a path: components separated by `/`, led by `/` when absolute.
pub open spec fn path_text(p: (bool, Seq<Seq<char>>)) -> Seq<char> {
    if p.0 {
        seq!['/'] + joined(p.1)
    } else {
        joined(p.1)
    }
}

/// The components joined by `/`.
pub open spec fn joined(parts: Seq<Seq<char>>) -> Seq<char>
    decreases parts.len(),
{
    if parts.len() == 0 {
        Seq::empty()
    } else if parts.len() == 1 {
        parts[0]
    } else {
        joined(parts.drop_last()) + seq!['/'] + parts.last()
    }
}

/// Copies the first `n` components of `v`.
fn prefix_of(v: &Vec<String>, n: usize) -> (r: Vec<String>)
    requires
        n <= v@.len(),
    ensures
        r@ == v@.subrange(0, n as int),
{
    let mut r: Vec<String> = Vec::new();
    let mut i: usize = 0;
    while i < n
        invariant
            n <= v@.len(),
            i <= n,
            r@ == v@.subrange(0, i as int),
        decreases n - i,
    {
        r.push(v[i].clone());
        i = i + 1;
        assert(r@ =~= v@.subrange(0, i as int));
    }
    r
}

impl ProjectPath {
    /// A path from its parts.
    pub fn new(absolute: bool, components: Vec<String>) -> (r: ProjectPath)
        ensures
            r.absolute == absolute,
            r.components@ == components@,
    {
        ProjectPath { absolute, components }
    }

    /// A copy of this path.
    pub fn duplicate(&self) -> (r: ProjectPath)
        ensures
            r@ == self@,
    {
        let n = self.components.len();
        let components = prefix_of(&self.components, n);
        assert(texts(components@) =~= self@.1);
        ProjectPath { absolute: self.absolute, components }
    }

    /// The directory that holds this path; none for the root or an empty path.
    pub fn parent(&self) -> (r: Option<ProjectPath>)
        ensures
            self@.1.len() == 0 <==> r is None,
            r matches Some(q) ==> q@ == ancestor(self@, 1),
    {
        let n = self.components.len();
        if n == 0 {
            None
        } else {
            let components = prefix_of(&self.components, n - 1);
            assert(texts(components@) =~= ancestor(self@, 1).1);
            Some(ProjectPath { absolute: self.absolute, components })
        }
    }

    /// This path with one more component at its end.
    pub fn join(&self, name: &str) -> (r: ProjectPath)
        requires
            self@.1.len() < usize::MAX,
        ensures
            r@ == (self@.0, self@.1.push(name@)),
    {
        let n = self.components.len();
        let mut components = prefix_of(&self.components, n);
        components.push(String::from_str(name));
        assert(texts(components@) =~= self@.1.push(name@));
        ProjectPath { absolute: self.absolute, components }
    }

    /// Whether the last component is exactly `name`.
    pub fn ends_with_name(&self, name: &str) -> (r: bool)
        ensures
            r == (self@.1.len() > 0 && self@.1.last() == name@),
    {
        let n = self.components.len();
        if n == 0 {
            return false;
        }
        same_text(self.components[n - 1].as_str(), name)
    }

    /// The text of this path.
    pub fn to_text(&self) -> (r: String)
        ensures
            r@ == path_text(self@),
    {
        let mut acc = String::new();
        let n = self.components.len();
        let mut i: usize = 0;
        while i < n
            invariant
                n == self@.1.len(),
                i <= n,
                acc@ == joined(self@.1.subrange(0, i as int)),
            decreases n - i,
        {
            if i > 0 {
                acc.append("/");
            }
            acc.append(self.components[i].as_str());
            proof {
                reveal_strlit("/");
                let next = self@.1.subrange(0, i + 1);
                assert(next.drop_last() =~= self@.1.subrange(0, i as int));
                if i == 0 {
                    assert(acc@ =~= joined(next));
                } else {
                    assert(acc@ =~= joined(next));
                }
            }
            i = i + 1;
        }
        assert(self@.1.subrange(0, n as int) =~= self@.1);
        if self.absolute {
            let mut r = String::from_str("/");
            proof {
                reveal_strlit("/");
            }
            r.append(acc.as_str());
            assert(r@ =~= path_text(self@));
            r
        } else {
            acc
        }
    }
}

/// Whether two texts are equal, character by character.
pub fn same_text(a: &str, b: &str) -> (r: bool)
    ensures
        r == (a@ == b@),
{
    let n = a.unicode_len();
    if n != b.unicode_len() {
        return false;
    }
    let mut i: usize = 0;
    while i < n
        invariant
            n == a@.len(),
            n == b@.len(),
            i <= n,
            forall|j: int| 0 <= j < i ==> a@[j] == b@[j],
        decreases n - i,
    {
        if a.get_char(i) != b.get_char(i) {
            return false;
        }
        i = i + 1;
    }
    assert(a@ =~= b@);
    true
}

} // verus!
