use vstd::prelude::*;

use crate::bytes::clone_bytes;

verus! {

broadcast use crate::lemma_bytes_deep_view;

/// What kind of entry a directory member is.
#[derive(Clone, Copy, PartialEq, Eq, Structural, Debug)]
pub enum FileKind {
    File,
    Directory,
    Symlink,
    Unknown,
}

impl FileKind {
    /// Whether this kind is a directory.
    pub open spec fn spec_is_dir(&self) -> bool {
        *self is Directory
    }

    /// Whether this kind is a directory.
    #[verifier::when_used_as_spec(spec_is_dir)]
    pub fn is_dir(&self) -> (r: bool)
        ensures
            r == self.spec_is_dir(),
    {
        matches!(self, FileKind::Directory)
    }
}

/// One directory member, read fresh from disk: its name and its kind.
pub struct Entry {
    pub name: Vec<u8>,
    pub kind: FileKind,
}

/// The mathematical value of an `Entry`.
#[verifier::ext_equal]
pub struct EntryView {
    pub name: Seq<u8>,
    pub kind: FileKind,
}

impl View for Entry {
    type V = EntryView;

    open spec fn view(&self) -> EntryView {
        EntryView { name: self.name@, kind: self.kind }
    }
}

impl DeepView for Entry {
    type V = EntryView;

    open spec fn deep_view(&self) -> EntryView {
        self@
    }
}

impl Entry {
    /// Copies the entry.
    pub fn duplicate(&self) -> (r: Entry)
        ensures
            r@ == self@,
    {
        Entry { name: clone_bytes(&self.name), kind: self.kind }
    }
}

/// Lexicographic order on byte strings.
pub open spec fn lex_le(a: Seq<u8>, b: Seq<u8>) -> bool
    decreases a.len(),
{
    if a.len() == 0 {
        true
    } else if b.len() == 0 {
        false
    } else if a.first() < b.first() {
        true
    } else if a.first() > b.first() {
        false
    } else {
        lex_le(a.drop_first(), b.drop_first())
    }
}

/// Any two byte strings are ordered one way or the other.
pub proof fn lemma_lex_le_total(a: Seq<u8>, b: Seq<u8>)
    ensures
        lex_le(a, b) || lex_le(b, a),
    decreases a.len(),
{
    if a.len() > 0 && b.len() > 0 && a.first() == b.first() {
        lemma_lex_le_total(a.drop_first(), b.drop_first());
    }
}

/// The order on byte strings is transitive.
pub proof fn lemma_lex_le_trans(a: Seq<u8>, b: Seq<u8>, c: Seq<u8>)
    requires
        lex_le(a, b),
        lex_le(b, c),
    ensures
        lex_le(a, c),
    decreases a.len(),
{
    if a.len() > 0 && b.len() > 0 && c.len() > 0 && a.first() == b.first() && b.first()
        == c.first() {
        lemma_lex_le_trans(a.drop_first(), b.drop_first(), c.drop_first());
    }
}

/// The listing order: directories before everything else, and each group
/// ordered by name.
pub open spec fn entry_le(a: EntryView, b: EntryView) -> bool {
    if a.kind is Directory && !(b.kind is Directory) {
        true
    } else if !(a.kind is Directory) && b.kind is Directory {
        false
    } else {
        lex_le(a.name, b.name)
    }
}

/// Any two entries are ordered one way or the other.
pub proof fn lemma_entry_le_total(a: EntryView, b: EntryView)
    ensures
        entry_le(a, b) || entry_le(b, a),
{
    lemma_lex_le_total(a.name, b.name);
}

/// The listing order is transitive.
pub proof fn lemma_entry_le_trans(a: EntryView, b: EntryView, c: EntryView)
    requires
        entry_le(a, b),
        entry_le(b, c),
    ensures
        entry_le(a, c),
{
    if entry_le(a, b) && entry_le(b, c) && !(a.kind is Directory && !(c.kind is Directory)) {
        if lex_le(a.name, b.name) && lex_le(b.name, c.name) {
            lemma_lex_le_trans(a.name, b.name, c.name);
        }
    }
}

/// Whether the entry is shown: hidden names begin with a dot.
pub open spec fn spec_visible(e: EntryView, show_hidden: bool) -> bool {
    show_hidden || e.name.len() == 0 || e.name.first() != 46u8
}

/// Whether the entry is shown under the given setting.
pub fn visible(e: &Entry, show_hidden: bool) -> (r: bool)
    ensures
        r == spec_visible(e@, show_hidden),
{
    show_hidden || e.name.len() == 0 || e.name[0] != 46u8
}

/// The visible entries, in their original order.
pub open spec fn visibles(s: Seq<EntryView>, show_hidden: bool) -> Seq<EntryView>
    decreases s.len(),
{
    if s.len() == 0 {
        Seq::empty()
    } else {
        let rest = visibles(s.drop_last(), show_hidden);
        if spec_visible(s.last(), show_hidden) {
            rest.push(s.last())
        } else {
            rest
        }
    }
}

/// Every member of `visibles` is visible.
pub proof fn lemma_visibles_visible(s: Seq<EntryView>, show_hidden: bool)
    ensures
        forall|i: int|
            0 <= i < visibles(s, show_hidden).len() ==> spec_visible(
                #[trigger] visibles(s, show_hidden)[i],
                show_hidden,
            ),
    decreases s.len(),
{
    if s.len() > 0 {
        lemma_visibles_visible(s.drop_last(), show_hidden);
        let rest = visibles(s.drop_last(), show_hidden);
        assert forall|i: int|
            0 <= i < visibles(s, show_hidden).len() implies spec_visible(
            visibles(s, show_hidden)[i],
            show_hidden,
        ) by {
            if spec_visible(s.last(), show_hidden) {
                if i < rest.len() {
                    assert(visibles(s, show_hidden)[i] == rest[i]);
                } else {
                    assert(visibles(s, show_hidden)[i] == s.last());
                }
            } else {
                assert(visibles(s, show_hidden)[i] == rest[i]);
            }
        }
    }
}

/// A sequence of visible entries passes `visibles` unchanged.
pub proof fn lemma_visibles_identity(s: Seq<EntryView>, show_hidden: bool)
    requires
        forall|i: int| 0 <= i < s.len() ==> spec_visible(#[trigger] s[i], show_hidden),
    ensures
        visibles(s, show_hidden) == s,
    decreases s.len(),
{
    if s.len() == 0 {
        assert(visibles(s, show_hidden) =~= s);
    } else {
        lemma_visibles_identity(s.drop_last(), show_hidden);
        assert(visibles(s, show_hidden) =~= s);
    }
}

/// Where an entry comes to stand when added to an ordered listing: before
/// every trailing entry that does not precede it.
pub open spec fn sort_insert(s: Seq<EntryView>, e: EntryView) -> Seq<EntryView>
    decreases s.len(),
{
    if s.len() == 0 {
        seq![e]
    } else if entry_le(s.last(), e) {
        s.push(e)
    } else {
        sort_insert(s.drop_last(), e).push(s.last())
    }
}

/// The listing order of a sequence of entries: a stable insertion sort.
pub open spec fn sort_entries(s: Seq<EntryView>) -> Seq<EntryView>
    decreases s.len(),
{
    if s.len() == 0 {
        Seq::empty()
    } else {
        sort_insert(sort_entries(s.drop_last()), s.last())
    }
}

/// What `list` returns: the visible entries, in listing order.
pub open spec fn listed(s: Seq<EntryView>, show_hidden: bool) -> Seq<EntryView> {
    sort_entries(visibles(s, show_hidden))
}

/// An ordered listing: every entry precedes the later ones.
pub open spec fn entries_sorted(s: Seq<EntryView>) -> bool {
    forall|i: int, j: int| 0 <= i < j < s.len() ==> entry_le(#[trigger] s[i], #[trigger] s[j])
}

/// Adding an entry keeps the members: the result holds the old members and
/// the new one, and nothing else.
pub proof fn lemma_sort_insert_multiset(s: Seq<EntryView>, e: EntryView)
    ensures
        sort_insert(s, e).to_multiset() == s.push(e).to_multiset(),
    decreases s.len(),
{
    broadcast use vstd::seq_lib::group_to_multiset_ensures;

    if s.len() == 0 {
        assert(sort_insert(s, e) =~= s.push(e));
    } else if entry_le(s.last(), e) {
    } else {
        lemma_sort_insert_multiset(s.drop_last(), e);
        let r0 = sort_insert(s.drop_last(), e);
        assert(sort_insert(s, e) == r0.push(s.last()));
        assert(r0.push(s.last()).to_multiset() == r0.to_multiset().insert(s.last()));
        assert(s.drop_last().push(e).to_multiset() == s.drop_last().to_multiset().insert(e));
        assert(s.drop_last().push(s.last()).to_multiset() == s.drop_last().to_multiset().insert(
            s.last(),
        ));
        assert(s =~= s.drop_last().push(s.last()));
        assert(s.push(e).to_multiset() == s.to_multiset().insert(e));
        assert(sort_insert(s, e).to_multiset() =~= s.push(e).to_multiset());
    }
}

/// An upper bound is kept when an entry below it is added.
pub proof fn lemma_sort_insert_upper(s: Seq<EntryView>, e: EntryView, x: EntryView)
    requires
        forall|i: int| 0 <= i < s.len() ==> entry_le(#[trigger] s[i], x),
        entry_le(e, x),
    ensures
        forall|i: int|
            0 <= i < sort_insert(s, e).len() ==> entry_le(#[trigger] sort_insert(s, e)[i], x),
    decreases s.len(),
{
    if s.len() == 0 {
        assert(sort_insert(s, e)[0] == e);
    } else if entry_le(s.last(), e) {
        assert forall|i: int|
            0 <= i < sort_insert(s, e).len() implies entry_le(sort_insert(s, e)[i], x) by {
            if i < s.len() {
                assert(sort_insert(s, e)[i] == s[i]);
            } else {
                assert(sort_insert(s, e)[i] == e);
            }
        }
    } else {
        lemma_sort_insert_upper(s.drop_last(), e, x);
        let r0 = sort_insert(s.drop_last(), e);
        assert forall|i: int|
            0 <= i < sort_insert(s, e).len() implies entry_le(sort_insert(s, e)[i], x) by {
            if i < r0.len() {
                assert(sort_insert(s, e)[i] == r0[i]);
            } else {
                assert(sort_insert(s, e)[i] == s.last());
            }
        }
    }
}

/// Adding an entry to an ordered listing keeps it ordered.
pub proof fn lemma_sort_insert_sorted(s: Seq<EntryView>, e: EntryView)
    requires
        entries_sorted(s),
    ensures
        entries_sorted(sort_insert(s, e)),
    decreases s.len(),
{
    if s.len() == 0 {
    } else if entry_le(s.last(), e) {
        assert forall|i: int, j: int|
            0 <= i < j < sort_insert(s, e).len() implies entry_le(
            sort_insert(s, e)[i],
            sort_insert(s, e)[j],
        ) by {
            if j == s.len() {
                if i < s.len() - 1 {
                    lemma_entry_le_trans(s[i], s.last(), e);
                }
            }
        }
    } else {
        assert(entries_sorted(s.drop_last()));
        lemma_sort_insert_sorted(s.drop_last(), e);
        lemma_entry_le_total(s.last(), e);
        lemma_sort_insert_upper(s.drop_last(), e, s.last());
        let r = sort_insert(s.drop_last(), e).push(s.last());
        assert forall|i: int, j: int| 0 <= i < j < r.len() implies entry_le(r[i], r[j]) by {
            if j < r.len() - 1 {
                assert(entry_le(sort_insert(s.drop_last(), e)[i], sort_insert(s.drop_last(), e)[j]));
            }
        }
    }
}

/// An ordered listing stands where every member is ordered and visible.
pub proof fn lemma_sort_entries_sorted(s: Seq<EntryView>)
    ensures
        entries_sorted(sort_entries(s)),
    decreases s.len(),
{
    if s.len() > 0 {
        lemma_sort_entries_sorted(s.drop_last());
        lemma_sort_insert_sorted(sort_entries(s.drop_last()), s.last());
    }
}

/// Ordering a sequence of entries keeps exactly its members.
pub proof fn lemma_sort_entries_multiset(s: Seq<EntryView>)
    ensures
        sort_entries(s).to_multiset() == s.to_multiset(),
    decreases s.len(),
{
    broadcast use vstd::seq_lib::group_to_multiset_ensures;

    if s.len() > 0 {
        lemma_sort_entries_multiset(s.drop_last());
        lemma_sort_insert_multiset(sort_entries(s.drop_last()), s.last());
        assert(sort_entries(s.drop_last()).push(s.last()).to_multiset() == sort_entries(
            s.drop_last(),
        ).to_multiset().insert(s.last()));
        assert(s =~= s.drop_last().push(s.last()));
        assert(s.to_multiset() == s.drop_last().to_multiset().insert(s.last()));
    }
}

/// Skipping one equal leading byte on both sides keeps the order unchanged.
proof fn lemma_lex_le_skip_step(a: Seq<u8>, b: Seq<u8>, i: int)
    requires
        0 <= i < a.len(),
        0 <= i < b.len(),
        a[i] == b[i],
    ensures
        lex_le(a.skip(i), b.skip(i)) == lex_le(a.skip(i + 1), b.skip(i + 1)),
{
    assert(a.skip(i).len() > 0);
    assert(b.skip(i).len() > 0);
    assert(a.skip(i).first() == a[i]);
    assert(b.skip(i).first() == b[i]);
    assert(a.skip(i).drop_first() =~= a.skip(i + 1));
    assert(b.skip(i).drop_first() =~= b.skip(i + 1));
}

/// Decides the lexicographic order of two byte strings.
pub fn bytes_le(a: &Vec<u8>, b: &Vec<u8>) -> (r: bool)
    ensures
        r == lex_le(a@, b@),
{
    proof {
        assert(a@.skip(0) =~= a@);
        assert(b@.skip(0) =~= b@);
    }
    let mut i: usize = 0;
    while i < a.len() && i < b.len() && a[i] == b[i]
        invariant
            i <= a.len(),
            i <= b.len(),
            lex_le(a@, b@) == lex_le(a@.skip(i as int), b@.skip(i as int)),
        decreases a.len() - i,
    {
        proof {
            lemma_lex_le_skip_step(a@, b@, i as int);
        }
        i += 1;
    }
    if i == a.len() {
        proof {
            assert(a@.skip(i as int).len() == 0);
        }
        true
    } else if i == b.len() {
        proof {
            assert(b@.skip(i as int).len() == 0);
            assert(a@.skip(i as int).len() > 0);
        }
        false
    } else {
        proof {
            assert(a@.skip(i as int).first() == a@[i as int]);
            assert(b@.skip(i as int).first() == b@[i as int]);
            assert(a@[i as int] != b@[i as int]);
        }
        a[i] < b[i]
    }
}

/// Decides the listing order of two entries.
pub fn entry_le_check(a: &Entry, b: &Entry) -> (r: bool)
    ensures
        r == entry_le(a@, b@),
{
    let a_dir = a.kind.is_dir();
    let b_dir = b.kind.is_dir();
    if a_dir && !b_dir {
        true
    } else if !a_dir && b_dir {
        false
    } else {
        bytes_le(&a.name, &b.name)
    }
}

/// Placing an entry before every trailing entry that does not precede it is
/// exactly what `sort_insert` does.
proof fn lemma_sort_insert_at(s: Seq<EntryView>, e: EntryView, p: int)
    requires
        0 <= p <= s.len(),
        forall|k: int| p <= k < s.len() ==> !entry_le(#[trigger] s[k], e),
        p > 0 ==> entry_le(s[p - 1], e),
    ensures
        sort_insert(s, e) == s.subrange(0, p) + seq![e] + s.subrange(p, s.len() as int),
    decreases s.len(),
{
    if s.len() == 0 {
        assert(sort_insert(s, e) =~= s.subrange(0, p) + seq![e] + s.subrange(p, s.len() as int));
    } else if p == s.len() {
        assert(entry_le(s.last(), e));
        assert(sort_insert(s, e) == s.push(e));
        assert(s.push(e) =~= s.subrange(0, p) + seq![e] + s.subrange(p, s.len() as int));
    } else {
        assert(!entry_le(s.last(), e));
        lemma_sort_insert_at(s.drop_last(), e, p);
        let inner = sort_insert(s.drop_last(), e);
        assert(sort_insert(s, e) == inner.push(s.last()));
        assert(s.drop_last().subrange(0, p) =~= s.subrange(0, p));
        assert(s.drop_last().subrange(p, s.drop_last().len() as int) =~= s.subrange(
            p,
            s.len() - 1,
        ));
        assert(inner.push(s.last()) =~= s.subrange(0, p) + seq![e] + s.subrange(
            p,
            s.len() as int,
        ));
    }
}

/// Lists a directory's members as the interface shows them: the hidden ones
/// left out unless asked for, directories first, each group ordered by name.
pub fn list(raw: Vec<Entry>, show_hidden: bool) -> (r: Vec<Entry>)
    ensures
        r.deep_view() == listed(raw.deep_view(), show_hidden),
{
    let mut vis: Vec<Entry> = Vec::new();
    let mut i: usize = 0;
    while i < raw.len()
        invariant
            i <= raw.len(),
            vis.deep_view() == visibles(raw.deep_view().subrange(0, i as int), show_hidden),
        decreases raw.len() - i,
    {
        let ghost pre = raw.deep_view().subrange(0, i as int);
        let ghost cur = raw.deep_view().subrange(0, i + 1);
        proof {
            assert(cur.drop_last() =~= pre);
            assert(cur.last() == raw.deep_view()[i as int]);
        }
        if visible(&raw[i], show_hidden) {
            vis.push(raw[i].duplicate());
            proof {
                assert(vis.deep_view() =~= visibles(cur, show_hidden));
            }
        } else {
            proof {
                assert(vis.deep_view() =~= visibles(cur, show_hidden));
            }
        }
        i += 1;
    }
    proof {
        assert(raw.deep_view().subrange(0, raw.deep_view().len() as int) =~= raw.deep_view());
    }
    let mut out: Vec<Entry> = Vec::new();
    let mut k: usize = 0;
    while k < vis.len()
        invariant
            k <= vis.len(),
            out.deep_view() == sort_entries(vis.deep_view().subrange(0, k as int)),
        decreases vis.len() - k,
    {
        let e = vis[k].duplicate();
        let ghost pre_out = out.deep_view();
        let mut j: usize = out.len();
        while j > 0 && !entry_le_check(&out[j - 1], &e)
            invariant
                j <= out.len(),
                out.deep_view() == pre_out,
                e@ == vis.deep_view()[k as int],
                forall|t: int| j <= t < out.deep_view().len() ==> !entry_le(
                    #[trigger] out.deep_view()[t],
                    e@,
                ),
            decreases j,
        {
            j -= 1;
        }
        proof {
            lemma_sort_insert_at(pre_out, e@, j as int);
        }
        out.insert(j, e);
        let ghost cur = vis.deep_view().subrange(0, k + 1);
        proof {
            assert(cur.drop_last() =~= vis.deep_view().subrange(0, k as int));
            assert(cur.last() == vis.deep_view()[k as int]);
            assert(out.deep_view() =~= pre_out.subrange(0, j as int) + seq![cur.last()]
                + pre_out.subrange(j as int, pre_out.len() as int));
            assert(out.deep_view() == sort_insert(pre_out, cur.last()));
            assert(out.deep_view() == sort_entries(cur));
        }
        k += 1;
    }
    proof {
        assert(vis.deep_view().subrange(0, vis.deep_view().len() as int) =~= vis.deep_view());
    }
    out
}

/// A listing that is already ordered is left exactly as it stands.
pub proof fn lemma_sort_entries_identity(s: Seq<EntryView>)
    requires
        entries_sorted(s),
    ensures
        sort_entries(s) == s,
    decreases s.len(),
{
    if s.len() == 0 {
        assert(sort_entries(s) =~= s);
    } else {
        assert(entries_sorted(s.drop_last()));
        lemma_sort_entries_identity(s.drop_last());
        if s.len() == 1 {
            assert(sort_entries(s) =~= s);
        } else {
            assert(entry_le(s.drop_last().last(), s.last()));
            assert(sort_entries(s) == s.drop_last().push(s.last()));
            assert(s =~= s.drop_last().push(s.last()));
        }
    }
}

/// A listing is partitioned: every directory precedes every other entry,
/// and each of the two groups is ordered by name.
pub proof fn lemma_listed_partitioned(s: Seq<EntryView>, show_hidden: bool)
    ensures
        entries_sorted(listed(s, show_hidden)),
        forall|i: int, j: int|
            0 <= i < j < listed(s, show_hidden).len() && (#[trigger] listed(s, show_hidden)[j]).kind
                is Directory ==> (#[trigger] listed(s, show_hidden)[i]).kind is Directory,
        forall|i: int, j: int|
            0 <= i < j < listed(s, show_hidden).len() && ((#[trigger] listed(s, show_hidden)[i]).kind
                is Directory == (#[trigger] listed(s, show_hidden)[j]).kind is Directory) ==> lex_le(
                listed(s, show_hidden)[i].name,
                listed(s, show_hidden)[j].name,
            ),
{
    lemma_sort_entries_sorted(visibles(s, show_hidden));
    let l = listed(s, show_hidden);
    assert forall|i: int, j: int|
        0 <= i < j < l.len() && l[j].kind is Directory implies l[i].kind is Directory by {
        assert(entry_le(l[i], l[j]));
    }
    assert forall|i: int, j: int|
        0 <= i < j < l.len() && (l[i].kind is Directory == l[j].kind is Directory) implies lex_le(
        l[i].name,
        l[j].name,
    ) by {
        assert(entry_le(l[i], l[j]));
    }
}

/// A listing holds exactly the visible entries, each as often as it stood
/// in the raw sequence.
pub proof fn lemma_listed_members(s: Seq<EntryView>, show_hidden: bool)
    ensures
        listed(s, show_hidden).to_multiset() == visibles(s, show_hidden).to_multiset(),
{
    lemma_sort_entries_multiset(visibles(s, show_hidden));
}

/// Listing what a listing returned gives it back unchanged.
pub proof fn lemma_list_idempotent(s: Seq<EntryView>, show_hidden: bool)
    ensures
        listed(listed(s, show_hidden), show_hidden) == listed(s, show_hidden),
{
    broadcast use vstd::seq_lib::group_to_multiset_ensures;

    let v = visibles(s, show_hidden);
    let l = listed(s, show_hidden);
    lemma_visibles_visible(s, show_hidden);
    lemma_sort_entries_multiset(v);
    assert forall|i: int| 0 <= i < l.len() implies spec_visible(#[trigger] l[i], show_hidden) by {
        assert(l.contains(l[i]));
        assert(l.to_multiset().count(l[i]) > 0);
        assert(v.to_multiset().count(l[i]) > 0);
        assert(v.contains(l[i]));
        let j = choose|j: int| 0 <= j < v.len() && v[j] == l[i];
        assert(spec_visible(v[j], show_hidden));
    }
    lemma_visibles_identity(l, show_hidden);
    lemma_sort_entries_sorted(v);
    lemma_sort_entries_identity(l);
}

} // verus!
