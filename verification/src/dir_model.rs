use vstd::prelude::*;

use crate::bytes::clone_bytes;
use crate::bytes::note;
use crate::fs_path::FsPath;
use crate::listing::Entry;
use crate::task::ErrorKind;

verus! {

/// One step of the navigation history: the directory that was shown and the
/// name that was focused in it.
pub struct DirHistoryItem {
    /// The focused entry's name, if one was focused.
    pub current: Option<Vec<u8>>,
    /// The directory that was shown.
    pub path: FsPath,
}

/// What a background listing hands back to the interface: the directory, its
/// entries in listing order, and the name to focus.
pub struct OpenDirResult {
    /// The directory that was listed.
    pub path: FsPath,
    /// Its entries, in listing order.
    pub entries: Vec<Entry>,
    /// The name to focus once applied, if any.
    pub current: Option<Vec<u8>>,
}

/// An operation that could not start, with what to show for it.
#[derive(Debug)]
pub struct OpError {
    /// Which requirement failed.
    pub kind: ErrorKind,
    /// The message to show.
    pub msg: Vec<u8>,
}

/// The marks are held ascending, each index at most once.
pub open spec fn marks_sorted(s: Seq<usize>) -> bool {
    forall|i: int, j: int| 0 <= i < j < s.len() ==> s[i] < s[j]
}

/// Whether the index is marked.
pub open spec fn has_mark(s: Seq<usize>, v: usize) -> bool {
    exists|i: int| 0 <= i < s.len() && s[i] == v
}

/// Where a name first stands in a listing.
pub open spec fn first_named(s: Seq<crate::listing::EntryView>, name: Seq<u8>, i: int) -> bool {
    &&& 0 <= i < s.len()
    &&& s[i].name == name
    &&& forall|j: int| 0 <= j < i ==> (#[trigger] s[j]).name != name
}

/// The interface-side model of one directory view: the entries as listed,
/// the focused entry, the marked entries, the navigation history and the
/// running name search.  The engines never see this model; they are handed
/// resolved absolute paths.
pub struct DirModel {
    /// The directory shown.
    pub dir_path: FsPath,
    /// Its entries, in listing order.
    pub entries: Vec<Entry>,
    /// The focused entry's index, if any.
    pub current: Option<usize>,
    /// The marked entries' indices, ascending.
    pub marked: Vec<usize>,
    /// Where "back" leads, most recent last.
    pub history: Vec<DirHistoryItem>,
    /// The name prefix the running search looks for.
    pub start_with: Vec<u8>,
    /// Whether hidden entries are shown.
    pub show_hidden: bool,
}

impl DirModel {
    /// A sound model: the focus and every mark point at an entry, and the
    /// marks are ascending.
    pub open spec fn wf(&self) -> bool {
        &&& (self.current matches Some(i) ==> i < self.entries@.len())
        &&& marks_sorted(self.marked@)
        &&& (forall|i: int|
            0 <= i < self.marked@.len() ==> (#[trigger] self.marked@[i]) < self.entries@.len())
    }

    /// Builds the model over an already listed directory, with nothing
    /// focused or marked and an empty history.
    pub fn new(dir_path: FsPath, entries: Vec<Entry>, show_hidden: bool) -> (r: DirModel)
        ensures
            r.wf(),
            r.dir_path == dir_path,
            r.entries == entries,
            r.current is None,
            r.marked@.len() == 0,
            r.history@.len() == 0,
            r.start_with@.len() == 0,
            r.show_hidden == show_hidden,
    {
        DirModel {
            dir_path,
            entries,
            current: None,
            marked: Vec::new(),
            history: Vec::new(),
            start_with: Vec::new(),
            show_hidden,
        }
    }

    /// Focuses the next entry: the first when nothing is focused, never past
    /// the last.
    pub fn move_next(&mut self)
        requires
            old(self).wf(),
        ensures
            final(self).wf(),
            final(self).entries == old(self).entries,
            final(self).marked == old(self).marked,
            old(self).entries@.len() == 0 ==> final(self).current == old(self).current,
            old(self).entries@.len() > 0 ==> final(self).current == Some(
                match old(self).current {
                    None => 0usize,
                    Some(v) => if v + 1 < old(self).entries@.len() {
                        (v + 1) as usize
                    } else {
                        (old(self).entries@.len() - 1) as usize
                    },
                },
            ),
            final(self).dir_path == old(self).dir_path,
            final(self).history == old(self).history,
            final(self).start_with == old(self).start_with,
            final(self).show_hidden == old(self).show_hidden,
    {
        if !self.entries.is_empty() {
            let last = self.entries.len() - 1;
            self.current = Some(
                match self.current {
                    None => 0,
                    Some(v) => if v < last {
                        v + 1
                    } else {
                        last
                    },
                },
            );
        }
    }

    /// Focuses the previous entry, never before the first; with nothing
    /// focused nothing changes.
    pub fn move_prev(&mut self)
        requires
            old(self).wf(),
        ensures
            final(self).wf(),
            final(self).entries == old(self).entries,
            final(self).marked == old(self).marked,
            final(self).current == match old(self).current {
                None => None::<usize>,
                Some(v) => Some(if v == 0 {
                    0usize
                } else {
                    (v - 1) as usize
                }),
            },
    {
        self.current = match self.current {
            None => None,
            Some(v) => Some(
                if v == 0 {
                    0
                } else {
                    v - 1
                },
            ),
        };
    }

    /// Focuses the first entry, where there is one.
    pub fn move_home(&mut self)
        requires
            old(self).wf(),
        ensures
            final(self).wf(),
            final(self).entries == old(self).entries,
            old(self).entries@.len() > 0 ==> final(self).current == Some(0usize),
            old(self).entries@.len() == 0 ==> final(self).current == old(self).current,
    {
        if !self.entries.is_empty() {
            self.current = Some(0);
        }
    }

    /// Focuses the last entry, where there is one.
    pub fn move_end(&mut self)
        requires
            old(self).wf(),
        ensures
            final(self).wf(),
            final(self).entries == old(self).entries,
            old(self).entries@.len() > 0 ==> final(self).current == Some(
                (old(self).entries@.len() - 1) as usize,
            ),
            old(self).entries@.len() == 0 ==> final(self).current == old(self).current,
    {
        if !self.entries.is_empty() {
            self.current = Some(self.entries.len() - 1);
        }
    }

    /// Whether the focused entry is a directory; nothing is said with no
    /// focus.
    pub fn should_open_dir(&self) -> (r: Option<bool>)
        requires
            self.wf(),
        ensures
            r == match self.current {
                None => None::<bool>,
                Some(i) => Some(self.entries@[i as int].kind is Directory),
            },
    {
        match self.current {
            None => None,
            Some(i) => Some(self.entries[i].kind.is_dir()),
        }
    }

    /// Marks the focused entry if it is unmarked, unmarks it otherwise, and
    /// focuses the next entry.
    pub fn toggle_mark(&mut self)
        requires
            old(self).wf(),
        ensures
            final(self).wf(),
            final(self).entries == old(self).entries,
            old(self).entries@.len() == 0 ==> final(self).current == old(self).current,
            old(self).entries@.len() > 0 ==> final(self).current == Some(
                match old(self).current {
                    None => 0usize,
                    Some(v) => if v + 1 < old(self).entries@.len() {
                        (v + 1) as usize
                    } else {
                        (old(self).entries@.len() - 1) as usize
                    },
                },
            ),
            forall|v: usize|
                has_mark(final(self).marked@, v) == (match old(self).current {
                    None => has_mark(old(self).marked@, v),
                    Some(cur) => if v == cur {
                        !has_mark(old(self).marked@, v)
                    } else {
                        has_mark(old(self).marked@, v)
                    },
                }),
    {
        match self.current {
            None => {},
            Some(cur) => {
                let mut i: usize = 0;
                while i < self.marked.len() && self.marked[i] < cur
                    invariant
                        i <= self.marked@.len(),
                        forall|j: int| 0 <= j < i ==> (#[trigger] self.marked@[j]) < cur,
                        self.wf(),
                        self.current == Some(cur),
                    decreases self.marked@.len() - i,
                {
                    i += 1;
                }
                let ghost pre = self.marked@;
                if i < self.marked.len() && self.marked[i] == cur {
                    self.marked.remove(i);
                    proof {
                        assert forall|v: usize|
                            has_mark(self.marked@, v) == (has_mark(pre, v) && v != cur) by {
                            if has_mark(self.marked@, v) {
                                let k = choose|k: int|
                                    0 <= k < self.marked@.len() && self.marked@[k] == v;
                                if k < i {
                                    assert(pre[k] == v);
                                } else {
                                    assert(pre[k + 1] == v);
                                    assert(pre[k + 1] != cur);
                                }
                            }
                            if has_mark(pre, v) && v != cur {
                                let k = choose|k: int| 0 <= k < pre.len() && pre[k] == v;
                                if k < i {
                                    assert(self.marked@[k] == v);
                                } else {
                                    assert(k != i);
                                    assert(self.marked@[k - 1] == v);
                                }
                            }
                        }
                        assert forall|a: int, b: int|
                            0 <= a < b < self.marked@.len() implies self.marked@[a]
                            < self.marked@[b] by {
                            let pa = if a < i {
                                a
                            } else {
                                a + 1
                            };
                            let pb = if b < i {
                                b
                            } else {
                                b + 1
                            };
                            assert(self.marked@[a] == pre[pa]);
                            assert(self.marked@[b] == pre[pb]);
                        }
                    }
                } else {
                    self.marked.insert(i, cur);
                    proof {
                        assert forall|v: usize|
                            has_mark(self.marked@, v) == (has_mark(pre, v) || v == cur) by {
                            if has_mark(self.marked@, v) {
                                let k = choose|k: int|
                                    0 <= k < self.marked@.len() && self.marked@[k] == v;
                                if k < i {
                                    assert(pre[k] == v);
                                } else if k > i {
                                    assert(pre[k - 1] == v);
                                }
                            }
                            if has_mark(pre, v) {
                                let k = choose|k: int| 0 <= k < pre.len() && pre[k] == v;
                                if k < i {
                                    assert(self.marked@[k] == v);
                                } else {
                                    assert(self.marked@[k + 1] == v);
                                }
                            }
                            if v == cur {
                                assert(self.marked@[i as int] == cur);
                            }
                        }
                        assert(i == pre.len() || pre[i as int] > cur || pre[i as int] == cur);
                        assert(i < pre.len() ==> pre[i as int] != cur);
                        assert forall|a: int, b: int|
                            0 <= a < b < self.marked@.len() implies self.marked@[a]
                            < self.marked@[b] by {
                            if a < i && b == i {
                            } else if a == i && b > i {
                                assert(self.marked@[b] == pre[b - 1]);
                                assert(pre[b - 1] >= pre[i as int]);
                            } else if a < i && b > i {
                                assert(self.marked@[b] == pre[b - 1]);
                            } else if a > i && b > i {
                                assert(self.marked@[a] == pre[a - 1]);
                                assert(self.marked@[b] == pre[b - 1]);
                            }
                        }
                    }
                }
            },
        }
        self.move_next();
    }

    /// Forgets the running name search.
    pub fn search_clear(&mut self)
        requires
            old(self).wf(),
        ensures
            final(self).wf(),
            final(self).start_with@.len() == 0,
            final(self).entries == old(self).entries,
            final(self).current == old(self).current,
            final(self).marked == old(self).marked,
    {
        self.start_with.clear();
    }

    /// Focuses the first entry with the given name; with no such entry
    /// nothing changes.
    pub fn focus_file_name(&mut self, name: &Vec<u8>)
        requires
            old(self).wf(),
        ensures
            final(self).wf(),
            final(self).entries == old(self).entries,
            final(self).marked == old(self).marked,
            final(self).dir_path == old(self).dir_path,
            final(self).history == old(self).history,
            final(self).show_hidden == old(self).show_hidden,
            final(self).start_with == old(self).start_with,
            match final(self).current {
                Some(i) => first_named(old(self).entries.deep_view(), name@, i as int) || (
                final(self).current == old(self).current && forall|j: int|
                    0 <= j < old(self).entries@.len() ==> (#[trigger] old(self).entries.deep_view()[j]).name != name@),
                None => old(self).current is None && forall|j: int|
                    0 <= j < old(self).entries@.len() ==> (#[trigger] old(self).entries.deep_view()[j]).name != name@,
            },
    {
        let mut i: usize = 0;
        while i < self.entries.len()
            invariant
                i <= self.entries@.len(),
                self == old(self),
                self.wf(),
                forall|j: int| 0 <= j < i ==> (#[trigger] self.entries.deep_view()[j]).name
                    != name@,
            decreases self.entries@.len() - i,
        {
            if crate::bytes::bytes_eq(&self.entries[i].name, name) {
                self.current = Some(i);
                proof {
                    assert(self.entries.deep_view()[i as int].name == name@);
                }
                return ;
            }
            i += 1;
        }
    }

    /// The indices an operation works on: the marked entries where any are
    /// marked, else the focused entry alone.
    pub fn operate_items(&self) -> (r: Vec<usize>)
        requires
            self.wf(),
        ensures
            self.marked@.len() > 0 ==> r@ == self.marked@,
            self.marked@.len() == 0 ==> r@ == (match self.current {
                None => Seq::<usize>::empty(),
                Some(i) => seq![i],
            }),
            forall|i: int| 0 <= i < r@.len() ==> (#[trigger] r@[i]) < self.entries@.len(),
    {
        let mut r: Vec<usize> = Vec::new();
        if self.marked.is_empty() {
            match self.current {
                None => {
                    proof {
                        assert(r@ =~= Seq::<usize>::empty());
                    }
                },
                Some(i) => {
                    r.push(i);
                    proof {
                        assert(r@ =~= seq![i]);
                    }
                },
            }
        } else {
            let mut i: usize = 0;
            while i < self.marked.len()
                invariant
                    i <= self.marked@.len(),
                    r@ =~= self.marked@.subrange(0, i as int),
                    self.wf(),
                decreases self.marked@.len() - i,
            {
                r.push(self.marked[i]);
                i += 1;
            }
            proof {
                assert(r@ =~= self.marked@);
            }
        }
        r
    }

    /// The full paths an operation works on, in mark order.
    pub fn operate_paths(&self) -> (r: Vec<FsPath>)
        requires
            self.wf(),
        ensures
            r@.len() == (if self.marked@.len() > 0 {
                self.marked@.len() as int
            } else if self.current is Some {
                1int
            } else {
                0int
            }),
            forall|k: int|
                0 <= k < r@.len() ==> (#[trigger] r@[k])@.rooted == self.dir_path@.rooted
                    && r@[k]@.parts == self.dir_path@.parts.push(
                    self.entries.deep_view()[self.pick(k)].name,
                ),
    {
        let idxs = self.operate_items();
        let mut r: Vec<FsPath> = Vec::new();
        let mut k: usize = 0;
        while k < idxs.len()
            invariant
                k <= idxs@.len(),
                r@.len() == k,
                forall|i: int| 0 <= i < idxs@.len() ==> (#[trigger] idxs@[i]) < self.entries@.len(),
                idxs@ == (if self.marked@.len() > 0 {
                    self.marked@
                } else {
                    match self.current {
                        None => Seq::<usize>::empty(),
                        Some(i) => seq![i],
                    }
                }),
                forall|i: int|
                    0 <= i < k ==> (#[trigger] r@[i])@.rooted == self.dir_path@.rooted && r@[i]@.parts
                        == self.dir_path@.parts.push(
                        self.entries.deep_view()[idxs@[i] as int].name,
                    ),
                self.wf(),
            decreases idxs@.len() - k,
        {
            let idx = idxs[k];
            r.push(self.dir_path.child(&self.entries[idx].name));
            k += 1;
        }
        r
    }

    /// Which entry the `k`-th operated path names.
    pub open spec fn pick(&self, k: int) -> int {
        if self.marked@.len() > 0 {
            self.marked@[k] as int
        } else {
            match self.current {
                None => 0,
                Some(i) => i as int,
            }
        }
    }

    /// Applies a fresh listing: the directory, its entries, and the focus
    /// request replace the old ones; the marks are dropped.
    pub fn refresh_with_result(&mut self, result: OpenDirResult)
        requires
            old(self).wf(),
        ensures
            final(self).wf(),
            final(self).dir_path == result.path,
            final(self).entries == result.entries,
            final(self).marked@.len() == 0,
            final(self).history == old(self).history,
            final(self).show_hidden == old(self).show_hidden,
            match result.current {
                None => final(self).current is None,
                Some(name) => {
                    &&& (final(self).current matches Some(i) ==> first_named(
                        result.entries.deep_view(),
                        name@,
                        i as int,
                    ))
                    &&& (final(self).current is None ==> forall|j: int|
                        0 <= j < result.entries@.len() ==> (
                        #[trigger] result.entries.deep_view()[j]).name != name@)
                    &&& ((exists|j: int|
                        0 <= j < result.entries@.len() && (
                        #[trigger] result.entries.deep_view()[j]).name == name@) ==> final(self).current is Some)
                },
            },
    {
        self.dir_path = result.path;
        self.marked = Vec::new();
        self.entries = result.entries;
        self.current = None;
        match result.current {
            Some(name) => {
                self.focus_file_name(&name);
            },
            None => {},
        }
    }

    /// Applies a listing of a directory that was opened: the shown directory
    /// and its focus go onto the history first.
    pub fn open_with_result(&mut self, result: OpenDirResult)
        requires
            old(self).wf(),
        ensures
            final(self).wf(),
            final(self).history@.len() == old(self).history@.len() + 1,
            final(self).history@.last().path@ == old(self).dir_path@,
            forall|i: int|
                0 <= i < old(self).history@.len() ==> #[trigger] final(self).history@[i] == old(self).history@[i],
            match old(self).current {
                Some(i) => final(self).history@.last().current matches Some(n) && n@ == old(self).entries@[i as int].name@,
                None => final(self).history@.last().current is None,
            },
            final(self).dir_path == result.path,
            final(self).entries == result.entries,
            final(self).marked@.len() == 0,
            result.current is None ==> final(self).current is None,
    {
        let focused = match self.current {
            Some(idx) => {
                if idx < self.entries.len() {
                    Some(clone_bytes(&self.entries[idx].name))
                } else {
                    None
                }
            },
            None => None,
        };
        let path = self.dir_path.duplicate();
        self.history.push(DirHistoryItem { current: focused, path });
        self.refresh_with_result(result);
    }

    /// Applies a listing that "back" asked for: the step returned to leaves
    /// the history.
    pub fn back_with_result(&mut self, result: OpenDirResult)
        requires
            old(self).wf(),
        ensures
            final(self).wf(),
            final(self).history@.len() == (if old(self).history@.len() > 0 {
                old(self).history@.len() - 1
            } else {
                0int
            }),
            forall|i: int|
                0 <= i < final(self).history@.len() ==> #[trigger] final(self).history@[i] == old(self).history@[i],
            final(self).dir_path == result.path,
            final(self).entries == result.entries,
            final(self).marked@.len() == 0,
            match result.current {
                None => final(self).current is None,
                Some(name) => (exists|j: int|
                    0 <= j < result.entries@.len() && (
                    #[trigger] result.entries.deep_view()[j]).name == name@) ==> final(self).current is Some,
            },
    {
        let _ = self.history.pop();
        self.refresh_with_result(result);
    }

    /// Forgets the shown entries' marks and shows or hides hidden entries:
    /// applies the fresh listing and focuses the entry of the old focused
    /// name where it still stands.
    pub fn toggle_hidden(&mut self, entries: Vec<Entry>)
        requires
            old(self).wf(),
        ensures
            final(self).wf(),
            final(self).show_hidden == !old(self).show_hidden,
            final(self).marked@.len() == 0,
            final(self).entries == entries,
            final(self).dir_path == old(self).dir_path,
            final(self).history == old(self).history,
            old(self).current is None ==> final(self).current is None,
            final(self).current matches Some(i) ==> (old(self).current matches Some(c)
                && first_named(
                entries.deep_view(),
                old(self).entries.deep_view()[c as int].name,
                i as int,
            )),
            (old(self).current matches Some(c) && exists|j: int|
                0 <= j < entries@.len() && (#[trigger] entries.deep_view()[j]).name == old(self).entries.deep_view()[c as int].name) ==> final(self).current is Some,
    {
        let prev_name = match self.current {
            Some(idx) => Some(clone_bytes(&self.entries[idx].name)),
            None => None,
        };
        self.show_hidden = !self.show_hidden;
        self.marked = Vec::new();
        self.entries = entries;
        self.current = None;
        match prev_name {
            Some(name) => {
                self.focus_file_name(&name);
            },
            None => {},
        }
    }

    /// Moves the focus to the next entry whose name begins with the searched
    /// prefix, looking behind the focus first and wrapping around, and says
    /// whether one was found.
    pub fn search_next(&mut self) -> (r: bool)
        requires
            old(self).wf(),
        ensures
            final(self).wf(),
            final(self).entries == old(self).entries,
            final(self).marked == old(self).marked,
            final(self).start_with == old(self).start_with,
            r == (exists|i: int|
                0 <= i < old(self).entries@.len() && old(self).start_with@.is_prefix_of(
                    (#[trigger] old(self).entries.deep_view()[i]).name,
                )),
            !r ==> final(self).current == old(self).current,
            r ==> (final(self).current matches Some(i) && old(self).start_with@.is_prefix_of(
                old(self).entries.deep_view()[i as int].name,
            )),
            // The match found is the first one behind the focus, wrapping
            // around where none follows it.
            r ==> (final(self).current matches Some(i) && {
                let s = old(self).entries.deep_view();
                let p = old(self).start_with@;
                let lo: int = match old(self).current {
                    Some(c) => c + 1,
                    None => 0,
                };
                if exists|j: int| lo <= j < s.len() && p.is_prefix_of((#[trigger] s[j]).name) {
                    lo <= i && forall|j: int|
                        lo <= j < i ==> !p.is_prefix_of((#[trigger] s[j]).name)
                } else {
                    i < lo && forall|j: int|
                        0 <= j < i ==> !p.is_prefix_of((#[trigger] s[j]).name)
                }
            }),
    {
        let len = self.entries.len();
        let (lo, hi) = match self.current {
            Some(cur) => (cur + 1, len),
            None => (0, len),
        };
        match self.scan_prefix(lo, hi) {
            Some(i) => {
                self.current = Some(i);
                return true;
            },
            None => {},
        }
        match self.scan_prefix(0, lo) {
            Some(i) => {
                self.current = Some(i);
                true
            },
            None => {
                proof {
                    assert forall|i: int|
                        0 <= i < self.entries@.len() implies !self.start_with@.is_prefix_of(
                        (#[trigger] self.entries.deep_view()[i]).name,
                    ) by {
                        if i < lo {
                        } else {
                            assert(lo <= i < hi);
                        }
                    }
                }
                false
            },
        }
    }

    /// Looks for the first entry in the given range whose name begins with
    /// the searched prefix.
    fn scan_prefix(&self, lo: usize, hi: usize) -> (r: Option<usize>)
        requires
            self.wf(),
            hi <= self.entries@.len(),
        ensures
            match r {
                Some(i) => lo <= i < hi && self.start_with@.is_prefix_of(
                    self.entries.deep_view()[i as int].name,
                ) && forall|j: int|
                    lo <= j < i ==> !self.start_with@.is_prefix_of(
                        (#[trigger] self.entries.deep_view()[j]).name,
                    ),
                None => forall|i: int|
                    lo <= i < hi ==> !self.start_with@.is_prefix_of(
                        (#[trigger] self.entries.deep_view()[i]).name,
                    ),
            },
    {
        let mut i: usize = lo;
        while i < hi
            invariant
                lo <= i,
                hi <= self.entries@.len(),
                i <= hi || i == lo,
                forall|j: int|
                    lo <= j < i ==> !self.start_with@.is_prefix_of(
                        (#[trigger] self.entries.deep_view()[j]).name,
                    ),
            decreases hi - i,
        {
            if crate::bytes::bytes_starts_with(&self.entries[i].name, &self.start_with) {
                return Some(i);
            }
            i += 1;
        }
        None
    }

    /// The full paths a delete works on, or why it cannot start.
    pub fn delete(&self) -> (r: Result<Vec<FsPath>, OpError>)
        requires
            self.wf(),
        ensures
            match r {
                Ok(paths) => {
                    &&& (self.marked@.len() > 0 || self.current is Some)
                    &&& forall|k: int|
                        0 <= k < paths@.len() ==> (#[trigger] paths@[k])@.parts
                            == self.dir_path@.parts.push(
                            self.entries.deep_view()[self.pick(k)].name,
                        )
                },
                Err(e) => {
                    &&& self.marked@.len() == 0
                    &&& self.current is None
                    &&& e.kind == ErrorKind::PreconditionFailed
                },
            },
    {
        let paths = self.operate_paths();
        if paths.len() == 0 {
            Err(
                OpError {
                    kind: ErrorKind::PreconditionFailed,
                    msg: note("Nothing to delete", &Vec::new(), ""),
                },
            )
        } else {
            Ok(paths)
        }
    }

    /// Stashes the operated entries' full paths for a later paste.
    pub fn copy_or_move(&self, stash: &mut Stash, should_move: bool)
        requires
            self.wf(),
        ensures
            final(stash).is_move == should_move,
            final(stash).paths@.len() == (if self.marked@.len() > 0 {
                self.marked@.len() as int
            } else if self.current is Some {
                1int
            } else {
                0int
            }),
            forall|k: int|
                0 <= k < final(stash).paths@.len() ==> (#[trigger] final(stash).paths@[k])@.parts
                    == self.dir_path@.parts.push(self.entries.deep_view()[self.pick(k)].name),
    {
        let paths = self.operate_paths();
        stash.stash(paths, should_move);
    }

    /// The source and target of a rename of the focused entry, or why it
    /// cannot start.
    pub fn rename(&self, new_name: &Vec<u8>) -> (r: Result<(FsPath, FsPath), OpError>)
        requires
            self.wf(),
        ensures
            match r {
                Ok(pair) => {
                    &&& self.current matches Some(c) && pair.0@.parts
                        == self.dir_path@.parts.push(self.entries.deep_view()[c as int].name)
                    &&& pair.1@.parts == self.dir_path@.parts.push(new_name@)
                    &&& pair.0@.rooted == self.dir_path@.rooted
                    &&& pair.1@.rooted == self.dir_path@.rooted
                },
                Err(e) => self.current is None && e.kind == ErrorKind::PreconditionFailed,
            },
    {
        match self.current {
            None => Err(
                OpError {
                    kind: ErrorKind::PreconditionFailed,
                    msg: note("Nothing selected.", &Vec::new(), ""),
                },
            ),
            Some(cur) => {
                let src = self.dir_path.child(&self.entries[cur].name);
                let target = self.dir_path.child(new_name);
                Ok((src, target))
            },
        }
    }

    /// The parent directory to load for "up", or why there is none.
    pub fn up(&self) -> (r: Result<FsPath, OpError>)
        requires
            self.wf(),
        ensures
            match r {
                Ok(p) => self.dir_path@.parts.len() > 0 && p@.rooted == self.dir_path@.rooted
                    && p@.parts == self.dir_path@.parts.drop_last(),
                Err(e) => self.dir_path@.parts.len() == 0 && e.kind
                    == ErrorKind::PreconditionFailed,
            },
    {
        match self.dir_path.parent() {
            Some(p) => Ok(p),
            None => {
                let shown = self.dir_path.render();
                Err(
                    OpError {
                        kind: ErrorKind::PreconditionFailed,
                        msg: note("Cannot go to the parent dir. ", &shown, ""),
                    },
                )
            },
        }
    }

    /// What opening a resolved entry comes to: a directory is listed
    /// itself; a file's own directory is listed with the file focused; an
    /// entry that is gone or of another kind cannot be opened.
    pub fn open_resolved(target: FsPath, found: Option<crate::listing::FileKind>) -> (r: Result<
        (FsPath, Option<Vec<u8>>),
        OpError,
    >)
        ensures
            match r {
                Ok(pair) => match found {
                    Some(k) => if k is Directory {
                        pair.0@ == target@ && pair.1 is None
                    } else {
                        &&& k is File
                        &&& target@.parts.len() > 0
                        &&& pair.0@.rooted == target@.rooted
                        &&& pair.0@.parts == target@.parts.drop_last()
                        &&& (pair.1 matches Some(n) && n@ == target@.parts.last())
                    },
                    None => false,
                },
                Err(e) => e.kind == ErrorKind::PreconditionFailed && match found {
                    None => true,
                    Some(k) => !(k is Directory) && (!(k is File) || target@.parts.len() == 0),
                },
            },
    {
        match found {
            None => {
                let shown = target.render();
                Err(
                    OpError {
                        kind: ErrorKind::PreconditionFailed,
                        msg: note("Cannot follow ", &shown, ""),
                    },
                )
            },
            Some(k) => {
                if k.is_dir() {
                    Ok((target, None))
                } else if matches!(k, crate::listing::FileKind::File) {
                    match target.parent() {
                        Some(parent) => {
                            let focus = match target.file_name() {
                                Some(n) => Some(clone_bytes(n)),
                                None => None,
                            };
                            proof {
                                assert(focus matches Some(n) && n@ == target@.parts.last());
                            }
                            Ok((parent, focus))
                        },
                        None => Err(
                            OpError {
                                kind: ErrorKind::PreconditionFailed,
                                msg: note("Do not know how to handle this item", &Vec::new(), ""),
                            },
                        ),
                    }
                } else {
                    Err(
                        OpError {
                            kind: ErrorKind::PreconditionFailed,
                            msg: note("Do not know how to handle this item", &Vec::new(), ""),
                        },
                    )
                }
            },
        }
    }

    /// The most recently left directory and its remembered focus, for
    /// "back", or why there is none.
    pub fn back(&self) -> (r: Result<(FsPath, Option<Vec<u8>>), OpError>)
        requires
            self.wf(),
        ensures
            match r {
                Ok(pair) => self.history@.len() > 0 && pair.0@ == self.history@.last().path@
                    && (match self.history@.last().current {
                    Some(n) => pair.1 matches Some(m) && m@ == n@,
                    None => pair.1 is None,
                }),
                Err(e) => self.history@.len() == 0 && e.kind == ErrorKind::PreconditionFailed,
            },
    {
        if self.history.len() == 0 {
            Err(
                OpError {
                    kind: ErrorKind::PreconditionFailed,
                    msg: note("History empty", &Vec::new(), ""),
                },
            )
        } else {
            let item = &self.history[self.history.len() - 1];
            let focus = match &item.current {
                Some(name) => Some(clone_bytes(name)),
                None => None,
            };
            Ok((item.path.duplicate(), focus))
        }
    }
}

/// Everything several views share: the cut or copied paths, and whether the
/// paste that takes them is a move.
pub struct Stash {
    /// The paths the next paste places.
    pub paths: Vec<FsPath>,
    /// Whether that paste is a move.
    pub is_move: bool,
}

impl Stash {
    /// An empty stash.
    pub fn new() -> (r: Stash)
        ensures
            r.paths@.len() == 0,
            !r.is_move,
    {
        Stash { paths: Vec::new(), is_move: false }
    }

    /// Replaces the stash with the given paths.
    pub fn stash(&mut self, paths: Vec<FsPath>, should_move: bool)
        ensures
            final(self).paths == paths,
            final(self).is_move == should_move,
    {
        self.paths = paths;
        self.is_move = should_move;
    }

    /// Whether the stashed paths are to be moved.
    pub fn is_stash_move(&self) -> (r: bool)
        ensures
            r == self.is_move,
    {
        self.is_move
    }

    /// Takes the stashed paths out, leaving the stash empty.
    pub fn take_stash(&mut self) -> (r: Vec<FsPath>)
        ensures
            r == old(self).paths,
            final(self).paths@.len() == 0,
            final(self).is_move == old(self).is_move,
    {
        let mut taken: Vec<FsPath> = Vec::new();
        core::mem::swap(&mut taken, &mut self.paths);
        taken
    }
}

} // verus!
