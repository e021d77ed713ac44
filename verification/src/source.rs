use vstd::prelude::*;
use vstd::string::*;

verus! {

/// The view of a list of strings as a sequence of character sequences.
pub open spec fn text_views(ss: Seq<String>) -> Seq<Seq<char>> {
    ss.map_values(|s: String| s@)
}

/// The final path component of a path: the suffix after the last `/`,
/// or the whole path when it holds no `/`. A path ending in `/` has an
/// empty final component; directory-listing entries never end in one.
pub open spec fn final_component(p: Seq<char>) -> Seq<char>
    decreases p.len(),
{
    if p.len() == 0 {
        p
    } else if p.last() == '/' {
        Seq::empty()
    } else {
        final_component(p.drop_last()).push(p.last())
    }
}

/// A snapshot with entries `paths` holds a file named `name` iff some
/// entry's final path component equals `name` exactly.
pub open spec fn source_includes(paths: Seq<Seq<char>>, name: Seq<char>) -> bool {
    exists|i: int| 0 <= i < paths.len() && final_component(paths[i]) == name
}

/// When no `/` occurs at or after `start`, and `start` sits right after a
/// `/` (or at the front), the final component is exactly the suffix from
/// `start`.
proof fn lemma_final_component_subrange(p: Seq<char>, start: int)
    requires
        0 <= start <= p.len(),
        start == 0 || p[start - 1] == '/',
        forall|j: int| start <= j < p.len() ==> p[j] != '/',
    ensures
        final_component(p) == p.subrange(start, p.len() as int),
    decreases p.len(),
{
    if p.len() == 0 {
        assert(final_component(p) =~= p.subrange(start, p.len() as int));
    } else if start == p.len() {
        assert(p.last() == '/');
        assert(final_component(p) =~= p.subrange(start, p.len() as int));
    } else {
        assert(p[p.len() - 1] != '/');
        let q = p.drop_last();
        lemma_final_component_subrange(q, start);
        assert(q.subrange(start, q.len() as int).push(p.last()) =~= p.subrange(
            start,
            p.len() as int,
        ));
    }
}

/// Does the final path component of `path` equal `name` exactly?
fn component_matches(path: &str, name: &str) -> (r: bool)
    ensures
        r == (final_component(path@) == name@),
{
    let n = path.unicode_len();
    let mut start: usize = 0;
    let mut i: usize = 0;
    while i < n
        invariant
            n == path@.len(),
            start <= i <= n,
            start == 0 || path@[start as int - 1] == '/',
            forall|j: int| start <= j < i ==> path@[j] != '/',
        decreases n - i,
    {
        if path.get_char(i) == '/' {
            start = i + 1;
        }
        i += 1;
    }
    proof {
        lemma_final_component_subrange(path@, start as int);
    }
    let comp = path.substring_char(start, n);
    let r = comp.to_owned() == name.to_owned();
    r
}

/// An immutable, point-in-time listing of a source directory: the root
/// path and the top-level entry paths captured once at construction.
#[derive(Debug, Clone)]
pub struct AppSource {
    pub source: String,
    pub paths: Vec<String>,
}

impl AppSource {
    /// True iff some captured entry's final path component equals `name`
    /// exactly: no partial match, no case folding, no descent into
    /// subdirectories.
    pub fn includes_file(&self, name: &str) -> (r: bool)
        ensures
            r == source_includes(text_views(self.paths@), name@),
    {
        let mut i: usize = 0;
        while i < self.paths.len()
            invariant
                i <= self.paths@.len(),
                forall|j: int| 0 <= j < i ==> final_component(text_views(self.paths@)[j]) != name@,
            decreases self.paths@.len() - i,
        {
            if component_matches(self.paths[i].as_str(), name) {
                proof {
                    assert(final_component(text_views(self.paths@)[i as int]) == name@);
                }
                return true;
            }
            i += 1;
        }
        false
    }
}

} // verus!
