//! Absolute paths in normal form.
//!
//! Such a path is the list of the names that lead from the top of the disk
//! to an entry: no name is empty, `.` or `..`, and none holds a separator.
//! The disk reports every entry by its canonical path, which has this form
//! and goes through no link. Of two canonical paths one lies inside the
//! other exactly when the other's names are the first names of its own, and
//! that is how the library holds an entry to its root.

use crate::text::{same_text, to_chars};
use vstd::prelude::*;

verus! {

/// Whether `name` can be one name of a path in normal form.
pub open spec fn is_normal_segment(name: Seq<char>) -> bool {
    &&& name.len() > 0
    &&& !name.contains('/')
    &&& name != seq!['.']
    &&& name != seq!['.', '.']
}

/// Whether every name of `names` can be a name of a path in normal form.
pub open spec fn all_normal(names: Seq<Seq<char>>) -> bool {
    forall|i: int| 0 <= i < names.len() ==> is_normal_segment(#[trigger] names[i])
}

/// The names of `names`, each as the sequence of its characters.
pub open spec fn names_of(names: Seq<String>) -> Seq<Seq<char>> {
    names.map_values(|name: String| name@)
}

/// Whether the path `inner` is `outer` or lies below it.
pub open spec fn within(inner: Seq<Seq<char>>, outer: Seq<Seq<char>>) -> bool {
    outer.is_prefix_of(inner)
}

/// Whether `name` can be one name of a path in normal form.
pub fn normal_segment(name: &str) -> (yes: bool)
    ensures
        yes == is_normal_segment(name@),
{
    let chars = to_chars(name);
    let len: usize = chars.len();
    if len == 0 {
        return false;
    }
    if len == 1 && chars[0] == '.' {
        assert(name@ =~= seq!['.']);
        return false;
    }
    if len == 2 && chars[0] == '.' && chars[1] == '.' {
        assert(name@ =~= seq!['.', '.']);
        return false;
    }
    let mut i: usize = 0;
    while i < len
        invariant
            i <= len,
            len == name@.len(),
            chars@ == name@,
            forall|j: int| 0 <= j < i ==> name@[j] != '/',
        decreases len - i,
    {
        if chars[i] == '/' {
            return false;
        }
        i = i + 1;
    }
    assert(name@ != seq!['.']) by {
        if name@ == seq!['.'] {
            assert(seq!['.'].len() == 1);
            assert(seq!['.'][0] == '.');
        }
    }
    assert(name@ != seq!['.', '.']) by {
        if name@ == seq!['.', '.'] {
            assert(seq!['.', '.'].len() == 2);
            assert(seq!['.', '.'][0] == '.');
            assert(seq!['.', '.'][1] == '.');
        }
    }
    true
}

/// An absolute path in normal form: the names from the top of the disk down
/// to an entry. The path with no names is the top itself.
#[derive(Debug, PartialEq, Eq)]
pub struct AbsPath {
    segments: Vec<String>,
}

impl View for AbsPath {
    type V = Seq<Seq<char>>;

    closed spec fn view(&self) -> Seq<Seq<char>> {
        names_of(self.segments@)
    }
}

impl Clone for AbsPath {
    fn clone(&self) -> (copy: Self)
        ensures
            copy@ == self@,
    {
        AbsPath { segments: self.copy_segments() }
    }
}

impl AbsPath {
    #[verifier::type_invariant]
    spec fn normal(self) -> bool {
        all_normal(names_of(self.segments@))
    }

    /// A copy of the names of the path.
    fn copy_segments(&self) -> (names: Vec<String>)
        ensures
            names_of(names@) == names_of(self.segments@),
            all_normal(names_of(names@)),
    {
        proof {
            use_type_invariant(self);
        }
        let mut names: Vec<String> = Vec::new();
        let mut i: usize = 0;
        while i < self.segments.len()
            invariant
                i <= self.segments.len(),
                names.len() == i,
                forall|j: int| 0 <= j < i ==> names@[j]@ == self.segments@[j]@,
            decreases self.segments.len() - i,
        {
            names.push(self.segments[i].clone());
            i = i + 1;
        }
        assert(names_of(names@) =~= names_of(self.segments@));
        names
    }

    /// The path made of `segments`, where each of them can be a name of a
    /// path in normal form; `None` where one cannot.
    pub fn new(segments: Vec<String>) -> (path: Option<AbsPath>)
        ensures
            path is Some <==> all_normal(names_of(segments@)),
            path matches Some(p) ==> p@ == names_of(segments@),
    {
        let mut i: usize = 0;
        while i < segments.len()
            invariant
                i <= segments.len(),
                forall|j: int| 0 <= j < i ==> is_normal_segment(#[trigger] names_of(segments@)[j]),
            decreases segments.len() - i,
        {
            if !normal_segment(segments[i].as_str()) {
                assert(!is_normal_segment(names_of(segments@)[i as int]));
                return None;
            }
            i = i + 1;
        }
        Some(AbsPath { segments })
    }

    /// The names of the path, from the top of the disk down: each of them a
    /// normal one.
    pub fn segments(&self) -> (names: &Vec<String>)
        ensures
            names_of(names@) == self@,
            all_normal(self@),
    {
        proof {
            use_type_invariant(self);
        }
        &self.segments
    }

    /// The path of the entry called `name` in the directory at this path;
    /// `None` where `name` cannot be a name of a path in normal form.
    pub fn child(&self, name: &str) -> (path: Option<AbsPath>)
        ensures
            path is Some <==> is_normal_segment(name@),
            path matches Some(p) ==> p@ == self@.push(name@),
    {
        if !normal_segment(name) {
            return None;
        }
        let mut segments = self.copy_segments();
        let ghost before = segments@;
        segments.push(String::from_str(name));
        assert(names_of(segments@) =~= names_of(before).push(name@));
        Some(AbsPath { segments })
    }

    /// The last name of the path; `None` for the top of the disk.
    pub fn file_name(&self) -> (name: Option<String>)
        ensures
            name is Some <==> self@.len() > 0,
            name matches Some(n) ==> n@ == self@.last(),
    {
        let len: usize = self.segments.len();
        if len == 0 {
            None
        } else {
            Some(self.segments[len - 1].clone())
        }
    }

    /// Whether this path is `base` or lies below it.
    pub fn is_within(&self, base: &AbsPath) -> (yes: bool)
        ensures
            yes == within(self@, base@),
    {
        let len: usize = base.segments.len();
        if len > self.segments.len() {
            return false;
        }
        let mut i: usize = 0;
        while i < len
            invariant
                i <= len,
                len == base.segments.len(),
                len <= self.segments.len(),
                forall|j: int| 0 <= j < i ==> base@[j] == self@[j],
            decreases len - i,
        {
            if !same_text(base.segments[i].as_str(), self.segments[i].as_str()) {
                assert(self@.subrange(0, base@.len() as int)[i as int] != base@[i as int]);
                return false;
            }
            i = i + 1;
        }
        assert(base@ =~= self@.subrange(0, base@.len() as int));
        true
    }

    /// Whether this path and `other` have the same names.
    pub fn same_as(&self, other: &AbsPath) -> (yes: bool)
        ensures
            yes == (self@ == other@),
    {
        assert(self@.len() == self.segments@.len() && other@.len() == other.segments@.len());
        let yes = self.segments.len() == other.segments.len() && self.is_within(other);
        proof {
            if yes {
                assert(self@ =~= other@);
            } else if self@ == other@ {
                assert(other@ =~= self@.subrange(0, other@.len() as int));
            }
        }
        yes
    }
}

} // verus!
