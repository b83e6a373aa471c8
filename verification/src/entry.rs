//! Directory entries and their canonical order.

use crate::path::{file_name_of, path_file_name};
use crate::text::{
    lemma_text_le_antisym, lemma_text_le_refl, lemma_text_le_total, lemma_text_le_trans, str_le,
    text_le,
};
use vstd::prelude::*;
use vstd::seq_lib::group_to_multiset_ensures;

verus! {

/// What kind of thing a path named when its directory was read.
#[derive(Clone, Copy, Debug, PartialEq, Eq, Structural)]
pub enum EntryKind {
    /// A regular file.
    File,
    /// A directory.
    Directory,
    /// Anything else: a broken link, a socket, a device.
    Other,
}

/// One child of a directory: its full path and its kind.
#[derive(Debug, PartialEq, Eq)]
pub struct Entry {
    pub path: String,
    pub kind: EntryKind,
}

/// The mathematical value of an [`Entry`].
pub struct EntryModel {
    pub path: Seq<char>,
    pub kind: EntryKind,
}

impl View for Entry {
    type V = EntryModel;

    open spec fn view(&self) -> EntryModel {
        EntryModel { path: self.path@, kind: self.kind }
    }
}

impl Clone for Entry {
    fn clone(&self) -> (r: Self)
        ensures
            r@ == self@,
    {
        Entry { path: self.path.clone(), kind: self.kind }
    }
}

impl Entry {
    /// An entry for `path` of the given kind.
    pub fn new(path: String, kind: EntryKind) -> (r: Self)
        ensures
            r@ == (EntryModel { path: path@, kind }),
    {
        Entry { path, kind }
    }

    /// Whether the entry is a directory.
    pub fn is_dir(&self) -> (r: bool)
        ensures
            r == (self@.kind == EntryKind::Directory),
    {
        self.kind == EntryKind::Directory
    }

    /// Whether the entry is a regular file.
    pub fn is_file(&self) -> (r: bool)
        ensures
            r == (self@.kind == EntryKind::File),
    {
        self.kind == EntryKind::File
    }

    /// The name the entry is shown under: the last component of its path,
    /// or the whole path where it has no such component.
    pub fn name(&self) -> (r: String)
        ensures
            r@ == name_of(self@.path),
    {
        match path_file_name(self.path.as_str()) {
            Some(name) => name,
            None => self.path.clone(),
        }
    }
}

/// The name a path is shown under.
pub open spec fn name_of(path: Seq<char>) -> Seq<char> {
    match file_name_of(path) {
        Some(name) => name,
        None => path,
    }
}

/// The values of a sequence of entries.
pub open spec fn views(s: Seq<Entry>) -> Seq<EntryModel> {
    s.map_values(|e: Entry| e@)
}

/// Entries are in canonical order: ascending by path.
pub open spec fn sorted(s: Seq<EntryModel>) -> bool {
    forall|i: int, j: int| 0 <= i < j < s.len() ==> text_le(#[trigger] s[i].path, #[trigger] s[j].path)
}

/// No two entries share a path.
pub open spec fn distinct_paths(s: Seq<EntryModel>) -> bool {
    forall|i: int, j: int| 0 <= i < j < s.len() ==> #[trigger] s[i].path != #[trigger] s[j].path
}

/// `b` holds the same entries as `a`, each as often, in canonical order.
pub open spec fn is_sorted_listing(a: Seq<EntryModel>, b: Seq<EntryModel>) -> bool {
    sorted(b) && b.to_multiset() == a.to_multiset()
}

/// Where `e` goes in `s`: behind the leading entries that it does not come
/// before.
pub open spec fn insert_position(e: EntryModel, s: Seq<EntryModel>) -> int
    decreases s.len(),
{
    if s.len() == 0 || text_le(e.path, s[0].path) {
        0
    } else {
        1 + insert_position(e, s.drop_first())
    }
}

/// The canonical listing of the children `l` of a directory: ascending by
/// path, with entries of the same path in the order they came in.
pub open spec fn canonical(l: Seq<EntryModel>) -> Seq<EntryModel>
    decreases l.len(),
{
    if l.len() == 0 {
        Seq::empty()
    } else {
        let rest = canonical(l.drop_first());
        rest.insert(insert_position(l[0], rest), l[0])
    }
}

/// The place of `e` in `s` lies behind entries that `e` does not come
/// before, and before one that it does come before.
pub proof fn lemma_insert_position(e: EntryModel, s: Seq<EntryModel>)
    ensures
        0 <= insert_position(e, s) <= s.len(),
        forall|j: int|
            0 <= j < insert_position(e, s) ==> !text_le(e.path, (#[trigger] s[j]).path),
        insert_position(e, s) < s.len() ==> text_le(e.path, s[insert_position(e, s)].path),
    decreases s.len(),
{
    if !(s.len() == 0 || text_le(e.path, s[0].path)) {
        let t = s.drop_first();
        lemma_insert_position(e, t);
        assert forall|j: int| 0 <= j < insert_position(e, s) implies !text_le(
            e.path,
            (#[trigger] s[j]).path,
        ) by {
            if j > 0 {
                assert(s[j] == t[j - 1]);
            }
        }
    }
}

/// There is one such place.
proof fn lemma_insert_position_is(e: EntryModel, s: Seq<EntryModel>, pos: int)
    requires
        0 <= pos <= s.len(),
        forall|j: int| 0 <= j < pos ==> !text_le(e.path, (#[trigger] s[j]).path),
        pos < s.len() ==> text_le(e.path, s[pos].path),
    ensures
        insert_position(e, s) == pos,
{
    lemma_insert_position(e, s);
    let p = insert_position(e, s);
    if p < pos {
        assert(!text_le(e.path, s[p].path));
    } else if pos < p {
        assert(!text_le(e.path, s[pos].path));
    }
}

/// An entry put into a sequence is one more entry of it, and nothing else
/// changes.
proof fn lemma_insert_multiset(s: Seq<EntryModel>, i: int, e: EntryModel)
    requires
        0 <= i <= s.len(),
    ensures
        s.insert(i, e).to_multiset() == s.to_multiset().insert(e),
{
    broadcast use group_to_multiset_ensures;

    let t = s.insert(i, e);
    assert(t.remove(i) =~= s);
    assert(t[i] == e);
    assert(t.contains(e));
    assert(t.to_multiset() =~= s.to_multiset().insert(e));
}

/// An entry put in its place leaves a sorted listing sorted.
proof fn lemma_insert_keeps_sorted(e: EntryModel, s: Seq<EntryModel>)
    requires
        sorted(s),
    ensures
        sorted(s.insert(insert_position(e, s), e)),
{
    lemma_insert_position(e, s);
    let at = insert_position(e, s);
    let after = s.insert(at, e);
    assert forall|i: int, j: int| 0 <= i < j < after.len() implies text_le(
        #[trigger] after[i].path,
        #[trigger] after[j].path,
    ) by {
        if j < at {
            assert(after[i] == s[i] && after[j] == s[j]);
        } else if j == at {
            assert(after[i] == s[i]);
            lemma_text_le_total(e.path, s[i].path);
        } else if i == at {
            assert(after[j] == s[j - 1]);
            if j - 1 > at {
                lemma_text_le_trans(e.path, s[at].path, s[j - 1].path);
            }
        } else if i < at {
            assert(after[i] == s[i] && after[j] == s[j - 1]);
        } else {
            assert(after[i] == s[i - 1] && after[j] == s[j - 1]);
        }
    }
}

/// The canonical listing holds the children it was made from, each as
/// often as it came in, in ascending order of their paths.
pub proof fn lemma_canonical_is_sorted_listing(l: Seq<EntryModel>)
    ensures
        is_sorted_listing(l, canonical(l)),
        canonical(l).len() == l.len(),
    decreases l.len(),
{
    broadcast use group_to_multiset_ensures;

    if l.len() == 0 {
        assert(canonical(l).to_multiset() =~= l.to_multiset());
    } else {
        let tail = l.drop_first();
        let rest = canonical(tail);
        lemma_canonical_is_sorted_listing(tail);
        lemma_insert_position(l[0], rest);
        lemma_insert_keeps_sorted(l[0], rest);
        lemma_insert_multiset(rest, insert_position(l[0], rest), l[0]);
        assert(tail =~= l.remove(0));
        assert(l.contains(l[0]));
        assert(canonical(l).to_multiset() =~= l.to_multiset());
    }
}

/// Puts `e` into `out` at its place.
fn insert_sorted(out: &mut Vec<Entry>, e: Entry)
    ensures
        views(final(out)@) == views(old(out)@).insert(
            insert_position(e@, views(old(out)@)),
            e@,
        ),
{
    let mut pos: usize = 0;
    while pos < out.len() && !str_le(e.path.as_str(), out[pos].path.as_str())
        invariant
            pos <= out@.len(),
            out@ == old(out)@,
            forall|j: int| 0 <= j < pos ==> !text_le(e@.path, (#[trigger] views(out@)[j]).path),
        decreases out@.len() - pos,
    {
        pos += 1;
    }
    proof {
        lemma_insert_position_is(e@, views(out@), pos as int);
    }
    let ghost before = views(out@);
    let ghost e_model = e@;
    out.insert(pos, e);
    proof {
        assert(views(out@) =~= before.insert(pos as int, e_model));
    }
}

/// Brings the children of a directory into canonical order: ascending by
/// full path, files and directories interleaved.
pub fn sort_entries(v: Vec<Entry>) -> (r: Vec<Entry>)
    ensures
        views(r@) == canonical(views(v@)),
        is_sorted_listing(views(v@), views(r@)),
{
    let ghost all = views(v@);
    let mut rest = v;
    let mut out: Vec<Entry> = Vec::new();
    proof {
        assert(all.skip(all.len() as int) =~= Seq::<EntryModel>::empty());
        assert(views(out@) =~= canonical(all.skip(all.len() as int)));
    }
    while rest.len() > 0
        invariant
            rest@.len() <= all.len(),
            views(rest@) == all.take(rest@.len() as int),
            views(out@) == canonical(all.skip(rest@.len() as int)),
        decreases rest@.len(),
    {
        let ghost n = rest@.len() as int;
        let e = rest.pop().unwrap();
        proof {
            assert(e@ == all.take(n)[n - 1]);
            assert(views(rest@) =~= all.take(n - 1));
            assert(all.skip(n - 1).drop_first() =~= all.skip(n));
            assert(all.skip(n - 1)[0] == e@);
        }
        insert_sorted(&mut out, e);
    }
    proof {
        assert(all.skip(0) =~= all);
        lemma_canonical_is_sorted_listing(all);
    }
    out
}

/// A directory whose children have different paths has one listing in
/// canonical order: two sorted sequences of the same entries are the same
/// sequence.
pub proof fn lemma_sorted_listing_unique(a: Seq<EntryModel>, b: Seq<EntryModel>)
    requires
        sorted(a),
        sorted(b),
        distinct_paths(a),
        a.to_multiset() == b.to_multiset(),
    ensures
        a == b,
    decreases a.len(),
{
    broadcast use group_to_multiset_ensures;

    a.to_multiset_ensures();
    b.to_multiset_ensures();
    assert(a.len() == b.len());
    if a.len() == 0 {
        assert(a =~= b);
    } else {
        let a0 = a[0];
        let b0 = b[0];
        assert(a.contains(a0));
        assert(b.contains(b0));
        assert(b.to_multiset().count(a0) > 0);
        assert(b.contains(a0));
        assert(a.to_multiset().count(b0) > 0);
        assert(a.contains(b0));
        let k = choose|k: int| 0 <= k < b.len() && b[k] == a0;
        let m = choose|m: int| 0 <= m < a.len() && a[m] == b0;
        if m != 0 {
            assert(text_le(a[0].path, a[m].path));
            if k != 0 {
                assert(text_le(b[0].path, b[k].path));
            } else {
                lemma_text_le_refl(a0.path);
            }
            lemma_text_le_antisym(a0.path, b0.path);
            assert(a[0].path == a[m].path);
            assert(false);
        }
        assert(a0 == b0);
        let ta = a.drop_first();
        let tb = b.drop_first();
        assert(ta =~= a.remove(0));
        assert(tb =~= b.remove(0));
        assert(ta.to_multiset() == tb.to_multiset());
        assert forall|i: int, j: int| 0 <= i < j < ta.len() implies text_le(
            #[trigger] ta[i].path,
            #[trigger] ta[j].path,
        ) by {
            assert(ta[i] == a[i + 1] && ta[j] == a[j + 1]);
        }
        assert forall|i: int, j: int| 0 <= i < j < tb.len() implies text_le(
            #[trigger] tb[i].path,
            #[trigger] tb[j].path,
        ) by {
            assert(tb[i] == b[i + 1] && tb[j] == b[j + 1]);
        }
        assert forall|i: int, j: int| 0 <= i < j < ta.len() implies #[trigger] ta[i].path
            != #[trigger] ta[j].path by {
            assert(ta[i] == a[i + 1] && ta[j] == a[j + 1]);
        }
        lemma_sorted_listing_unique(ta, tb);
        assert(a =~= seq![a0] + ta);
        assert(b =~= seq![b0] + tb);
    }
}

} // verus!
