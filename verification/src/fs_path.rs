use vstd::prelude::*;

use crate::bytes::bytes_eq;
use crate::bytes::clone_bytes;

verus! {

broadcast use crate::lemma_bytes_deep_view;

/// One filesystem path, kept as its name components (each a byte string, as
/// the operating system stores names) so that parent and child paths need no
/// string splitting.  `rooted` is true for an absolute path.
#[derive(Debug)]
pub struct FsPath {
    pub rooted: bool,
    pub parts: Vec<Vec<u8>>,
}

/// The mathematical value of an `FsPath`: whether it is absolute, and the
/// sequence of its component names.
#[verifier::ext_equal]
pub struct FsPathView {
    pub rooted: bool,
    pub parts: Seq<Seq<u8>>,
}

impl View for FsPath {
    type V = FsPathView;

    open spec fn view(&self) -> FsPathView {
        FsPathView { rooted: self.rooted, parts: self.parts.deep_view() }
    }
}

impl FsPath {
    /// The absolute root path `/`.
    pub fn root() -> (r: FsPath)
        ensures
            r@.rooted,
            r@.parts == Seq::<Seq<u8>>::empty(),
    {
        let r = FsPath { rooted: true, parts: Vec::new() };
        proof {
            assert(r@.parts =~= Seq::<Seq<u8>>::empty());
        }
        r
    }

    /// Copies the path.
    pub fn duplicate(&self) -> (r: FsPath)
        ensures
            r@ == self@,
    {
        let mut parts: Vec<Vec<u8>> = Vec::new();
        let mut i: usize = 0;
        while i < self.parts.len()
            invariant
                i <= self.parts.len(),
                parts@.len() == i,
                forall|j: int| 0 <= j < i ==> parts@[j]@ == #[trigger] self.parts@[j]@,
            decreases self.parts.len() - i,
        {
            let c = clone_bytes(&self.parts[i]);
            parts.push(c);
            i += 1;
        }
        let r = FsPath { rooted: self.rooted, parts };
        proof {
            assert forall|j: int| 0 <= j < parts@.len() implies parts.deep_view()[j]
                == self.parts.deep_view()[j] by {
                assert(parts@[j]@ == self.parts@[j]@);
            }
            assert(r@.parts =~= self@.parts);
        }
        r
    }

    /// The path of the named entry inside this directory.
    pub fn child(&self, name: &Vec<u8>) -> (r: FsPath)
        ensures
            r@.rooted == self@.rooted,
            r@.parts == self@.parts.push(name@),
    {
        let mut r = self.duplicate();
        r.parts.push(clone_bytes(name));
        proof {
            assert(r@.parts =~= self@.parts.push(name@));
        }
        r
    }

    /// The entry's own name: the last component, if any.
    pub fn file_name(&self) -> (r: Option<&Vec<u8>>)
        ensures
            match r {
                Some(name) => self@.parts.len() > 0 && name@ == self@.parts.last(),
                None => self@.parts.len() == 0,
            },
    {
        if self.parts.len() == 0 {
            None
        } else {
            Some(&self.parts[self.parts.len() - 1])
        }
    }

    /// The containing directory, or `None` for a path with no components.
    pub fn parent(&self) -> (r: Option<FsPath>)
        ensures
            match r {
                Some(p) => self@.parts.len() > 0 && p@.rooted == self@.rooted
                    && p@.parts == self@.parts.drop_last(),
                None => self@.parts.len() == 0,
            },
    {
        if self.parts.len() == 0 {
            None
        } else {
            let mut p = self.duplicate();
            let _ = p.parts.pop();
            proof {
                assert(p@.parts =~= self@.parts.drop_last());
            }
            Some(p)
        }
    }

    /// Whether two paths name the same entry.
    pub fn same_as(&self, other: &FsPath) -> (r: bool)
        ensures
            r == (self@ == other@),
    {
        if self.rooted != other.rooted {
            return false;
        }
        if self.parts.len() != other.parts.len() {
            proof {
                assert(self@.parts.len() != other@.parts.len());
            }
            return false;
        }
        let mut i: usize = 0;
        while i < self.parts.len()
            invariant
                i <= self.parts.len(),
                self@.parts.len() == other@.parts.len(),
                self.parts.len() == self@.parts.len(),
                self.rooted == other.rooted,
                forall|j: int| 0 <= j < i ==> self@.parts[j] == other@.parts[j],
            decreases self.parts.len() - i,
        {
            if !bytes_eq(&self.parts[i], &other.parts[i]) {
                proof {
                    assert(self@.parts[i as int] != other@.parts[i as int]);
                }
                return false;
            }
            i += 1;
        }
        proof {
            assert(self@.parts =~= other@.parts);
        }
        true
    }
}

/// A path's components joined with slashes.
pub open spec fn joined(parts: Seq<Seq<u8>>) -> Seq<u8>
    decreases parts.len(),
{
    if parts.len() == 0 {
        Seq::empty()
    } else if parts.len() == 1 {
        parts[0]
    } else {
        joined(parts.drop_last()) + seq![47u8] + parts.last()
    }
}

/// How a path reads: its components joined with slashes, with a leading
/// slash when it is absolute.
pub open spec fn rendered(v: FsPathView) -> Seq<u8> {
    if v.rooted {
        seq![47u8] + joined(v.parts)
    } else {
        joined(v.parts)
    }
}

impl FsPath {
    /// Writes the path out, for messages.
    pub fn render(&self) -> (r: Vec<u8>)
        ensures
            r@ == rendered(self@),
    {
        let mut r: Vec<u8> = Vec::new();
        if self.rooted {
            r.push(47u8);
        }
        let ghost lead = r@;
        let mut i: usize = 0;
        while i < self.parts.len()
            invariant
                i <= self.parts.len(),
                r@ == lead + joined(self@.parts.subrange(0, i as int)),
                lead == (if self@.rooted {
                    seq![47u8]
                } else {
                    Seq::<u8>::empty()
                }),
            decreases self.parts.len() - i,
        {
            let ghost pre = self@.parts.subrange(0, i as int);
            let ghost cur = self@.parts.subrange(0, i + 1);
            if i > 0 {
                r.push(47u8);
            }
            crate::bytes::push_bytes(&mut r, self.parts[i].as_slice());
            proof {
                assert(cur.drop_last() =~= pre);
                assert(cur.last() == self@.parts[i as int]);
                if i == 0 {
                    assert(joined(cur) == self@.parts[0]);
                    assert(r@ =~= lead + joined(cur));
                } else {
                    assert(joined(cur) == joined(pre) + seq![47u8] + cur.last());
                    assert(r@ =~= lead + joined(cur));
                }
            }
            i += 1;
        }
        proof {
            assert(self@.parts.subrange(0, self@.parts.len() as int) =~= self@.parts);
            if self@.rooted {
                assert(r@ =~= rendered(self@));
            } else {
                assert(r@ =~= rendered(self@));
            }
        }
        r
    }
}

/// A path's own name: its last component, or nothing for a path without
/// components.
pub open spec fn last_name(v: FsPathView) -> Seq<u8> {
    if v.parts.len() > 0 {
        v.parts.last()
    } else {
        Seq::<u8>::empty()
    }
}

/// The name an entry is shown under: the walk's readable prefix followed by
/// the entry's own name (entries with no name show the prefix alone).
pub fn display_name(prefix: &Vec<u8>, p: &FsPath) -> (r: Vec<u8>)
    ensures
        r@ == prefix@ + (if p@.parts.len() > 0 {
            p@.parts.last()
        } else {
            Seq::<u8>::empty()
        }),
{
    let mut m = clone_bytes(prefix);
    match p.file_name() {
        Some(n) => {
            crate::bytes::push_bytes(&mut m, n.as_slice());
        },
        None => {
            proof {
                assert(m@ =~= prefix@ + Seq::<u8>::empty());
            }
        },
    }
    m
}

/// Where a symbolic link leads: an absolute target stands as it is, a
/// relative one is read against the link's own directory.
pub fn resolved_link(link_location: &FsPath, target: &FsPath) -> (r: FsPath)
    requires
        link_location@.parts.len() > 0,
    ensures
        target@.rooted ==> r@ == target@,
        !target@.rooted ==> r@.rooted == link_location@.rooted && r@.parts
            == link_location@.parts.drop_last() + target@.parts,
{
    if target.rooted {
        target.duplicate()
    } else {
        let mut r = match link_location.parent() {
            Some(p) => p,
            None => {
                proof {
                    assert(false);
                }
                FsPath::root()
            },
        };
        let ghost base = link_location@.parts.drop_last();
        proof {
            assert forall|j: int| 0 <= j < base.len() implies r.parts@[j]@ == base[j] by {
                assert(r@.parts[j] == base[j]);
            }
        }
        let mut i: usize = 0;
        while i < target.parts.len()
            invariant
                i <= target.parts.len(),
                r.rooted == link_location@.rooted,
                base == link_location@.parts.drop_last(),
                r.parts@.len() == base.len() + i,
                forall|j: int| 0 <= j < base.len() ==> (#[trigger] r.parts@[j])@ == base[j],
                forall|j: int|
                    0 <= j < i ==> (#[trigger] r.parts@[base.len() + j])@ == target@.parts[j],
            decreases target.parts.len() - i,
        {
            let c = clone_bytes(&target.parts[i]);
            proof {
                assert(c@ == target@.parts[i as int]);
            }
            r.parts.push(c);
            i += 1;
        }
        proof {
            assert forall|k: int| 0 <= k < r.parts@.len() implies r@.parts[k] == (base
                + target@.parts)[k] by {
                if k < base.len() {
                    assert(r.parts@[k]@ == base[k]);
                } else {
                    let j = k - base.len();
                    assert(r.parts@[base.len() + j]@ == target@.parts[j]);
                }
            }
            assert(r@.parts =~= base + target@.parts);
        }
        r
    }
}

/// Whether a sequence of paths contains the given path value.
pub open spec fn path_in(set: Seq<FsPath>, p: FsPathView) -> bool {
    exists|i: int| 0 <= i < set.len() && set[i]@ == p
}

/// Whether two lists of paths name the same paths in the same order.
pub open spec fn paths_match(a: Seq<FsPath>, b: Seq<FsPath>) -> bool {
    a.len() == b.len() && forall|i: int| 0 <= i < a.len() ==> (#[trigger] a[i])@ == (
    #[trigger] b[i])@
}

/// Matching lists hold the same path values.
pub proof fn lemma_paths_match_in(a: Seq<FsPath>, b: Seq<FsPath>, p: FsPathView)
    requires
        paths_match(a, b),
        path_in(a, p),
    ensures
        path_in(b, p),
{
    let i = choose|i: int| 0 <= i < a.len() && a[i]@ == p;
    assert(b[i]@ == p);
}

/// Copies a list of paths.
pub fn clone_paths(v: &Vec<FsPath>) -> (r: Vec<FsPath>)
    ensures
        paths_match(r@, v@),
{
    let mut r: Vec<FsPath> = Vec::new();
    let mut i: usize = 0;
    while i < v.len()
        invariant
            i <= v.len(),
            r@.len() == i,
            forall|j: int| 0 <= j < i ==> (#[trigger] r@[j])@ == v@[j]@,
        decreases v.len() - i,
    {
        r.push(v[i].duplicate());
        i += 1;
    }
    r
}

/// Whether the path stands among the given ones.
pub fn path_contains(set: &Vec<FsPath>, p: &FsPath) -> (r: bool)
    ensures
        r == path_in(set@, p@),
{
    let mut i: usize = 0;
    while i < set.len()
        invariant
            i <= set.len(),
            forall|j: int| 0 <= j < i ==> set@[j]@ != p@,
        decreases set.len() - i,
    {
        if set[i].same_as(p) {
            proof {
                assert(set@[i as int]@ == p@);
            }
            return true;
        }
        i += 1;
    }
    false
}

} // verus!
