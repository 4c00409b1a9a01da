//! The entries of authorized directories that the agent has been shown, each
//! under an opaque reference id.

use vstd::prelude::*;

use crate::errors::FileError;
use crate::paths::{parts_start_with, parts_view, path_parts, path_starts_with, PartView, PathPart};
use crate::text::str_eq;

verus! {

/// A fresh reference id: a version 7 UUID (time and randomness) in its
/// hyphenated form.
#[verifier::external_body]
pub(crate) fn new_reference_id() -> (r: String) {
    uuid::Uuid::now_v7().to_string()
}

/// A copy of a component list, component by component.
pub fn copy_parts(parts: &[PathPart]) -> (r: Vec<PathPart>)
    ensures
        parts_view(r@) == parts_view(parts@),
{
    let mut r: Vec<PathPart> = Vec::new();
    let mut i: usize = 0;
    while i < parts.len()
        invariant
            i <= parts@.len(),
            parts_view(r@) == parts_view(parts@).take(i as int),
        decreases parts@.len() - i,
    {
        let part = match &parts[i] {
            PathPart::RootDir => PathPart::RootDir,
            PathPart::CurDir => PathPart::CurDir,
            PathPart::ParentDir => PathPart::ParentDir,
            PathPart::Normal(name) => PathPart::Normal(name.clone()),
        };
        let ghost pv = part@;
        let ghost before = parts_view(r@);
        r.push(part);
        assert(parts_view(r@) =~= before.push(pv));
        assert(parts_view(parts@).take(i + 1) =~= parts_view(parts@).take(i as int).push(pv));
        i = i + 1;
    }
    assert(parts_view(parts@).take(parts@.len() as int) =~= parts_view(parts@));
    r
}

/// An entry of an authorized directory that was shown to the agent.
#[derive(Debug)]
pub struct DirectoryEntryRecord {
    pub reference_id: String,
    pub directory_reference_id: String,
    pub selected_root: Vec<PathPart>,
    pub canonical_root: Vec<PathPart>,
    pub selected_path: Vec<PathPart>,
    pub name: String,
    pub relative_path: String,
}

pub struct EntryView {
    pub reference_id: Seq<char>,
    pub directory_reference_id: Seq<char>,
    pub selected_root: Seq<PartView>,
    pub canonical_root: Seq<PartView>,
    pub selected_path: Seq<PartView>,
    pub name: Seq<char>,
    pub relative_path: Seq<char>,
}

impl View for DirectoryEntryRecord {
    type V = EntryView;

    open spec fn view(&self) -> EntryView {
        EntryView {
            reference_id: self.reference_id@,
            directory_reference_id: self.directory_reference_id@,
            selected_root: parts_view(self.selected_root@),
            canonical_root: parts_view(self.canonical_root@),
            selected_path: parts_view(self.selected_path@),
            name: self.name@,
            relative_path: self.relative_path@,
        }
    }
}

impl DirectoryEntryRecord {
    /// A copy of the record.
    pub fn duplicate(&self) -> (r: Self)
        ensures
            r@ == self@,
    {
        DirectoryEntryRecord {
            reference_id: self.reference_id.clone(),
            directory_reference_id: self.directory_reference_id.clone(),
            selected_root: copy_parts(self.selected_root.as_slice()),
            canonical_root: copy_parts(self.canonical_root.as_slice()),
            selected_path: copy_parts(self.selected_path.as_slice()),
            name: self.name.clone(),
            relative_path: self.relative_path.clone(),
        }
    }
}

pub open spec fn records_view(records: Seq<DirectoryEntryRecord>) -> Seq<EntryView> {
    records.map_values(|e: DirectoryEntryRecord| e@)
}

/// No two records share a reference id, and no two records of one
/// directory share a relative path.
pub open spec fn registry_wf(s: Seq<EntryView>) -> bool {
    forall|i: int, j: int|
        #![trigger s[i], s[j]]
        0 <= i < s.len() && 0 <= j < s.len() && i != j ==> s[i].reference_id != s[j].reference_id
            && (s[i].directory_reference_id != s[j].directory_reference_id || s[i].relative_path
            != s[j].relative_path)
}

/// Whether some record has this id and belongs to this directory at this
/// relative path.
pub open spec fn has_entry(s: Seq<EntryView>, id: Seq<char>, dir: Seq<char>, rel: Seq<char>) -> bool {
    exists|i: int|
        0 <= i < s.len() && (#[trigger] s[i]).reference_id == id && s[i].directory_reference_id
            == dir && s[i].relative_path == rel
}

/// Whether some record of `dir` sits at `rel`.
pub open spec fn placed(s: Seq<EntryView>, dir: Seq<char>, rel: Seq<char>) -> bool {
    exists|i: int|
        0 <= i < s.len() && (#[trigger] s[i]).directory_reference_id == dir && s[i].relative_path
            == rel
}

/// Whether a record lies in the tree at `prefix` of directory `dir`.
pub open spec fn in_tree(e: EntryView, dir: Seq<char>, prefix: Option<Seq<char>>) -> bool {
    e.directory_reference_id == dir && match prefix {
        None => true,
        Some(p) => parts_start_with(path_parts(e.relative_path), path_parts(p)),
    }
}

/// The records that satisfy `keep`, in order.
pub open spec fn kept(s: Seq<EntryView>, keep: spec_fn(EntryView) -> bool) -> Seq<EntryView>
    decreases s.len(),
{
    if s.len() == 0 {
        s
    } else {
        let rest = kept(s.drop_last(), keep);
        if keep(s.last()) {
            rest.push(s.last())
        } else {
            rest
        }
    }
}

/// Keeps the records outside the tree at `prefix` of `dir`.
pub open spec fn outside(dir: Seq<char>, prefix: Option<Seq<char>>) -> spec_fn(EntryView) -> bool {
    |e: EntryView| !in_tree(e, dir, prefix)
}

/// Keeps the records with another id.
pub open spec fn other_id(id: Seq<char>) -> spec_fn(EntryView) -> bool {
    |e: EntryView| e.reference_id != id
}

/// The records after recording `e`: unchanged when some record of the same
/// directory already sits at `e`'s relative path, else those with another
/// id, then `e`.
pub open spec fn after_register(s: Seq<EntryView>, e: EntryView) -> Seq<EntryView> {
    if placed(s, e.directory_reference_id, e.relative_path) {
        s
    } else {
        kept(s, other_id(e.reference_id)).push(e)
    }
}

/// Recording `e` adds no record but `e`, and keeps every record with
/// another id.
pub proof fn lemma_after_register_contains(s: Seq<EntryView>, e: EntryView, x: EntryView)
    ensures
        after_register(s, e).contains(x) ==> s.contains(x) || x == e,
        s.contains(x) && x.reference_id != e.reference_id ==> after_register(s, e).contains(x),
{
    if !placed(s, e.directory_reference_id, e.relative_path) {
        lemma_kept_contains(s, other_id(e.reference_id), x);
        lemma_push_contains(kept(s, other_id(e.reference_id)), e, x);
    }
}

proof fn lemma_push_contains<A>(q: Seq<A>, x: A, e: A)
    ensures
        q.push(x).contains(e) <==> (q.contains(e) || e == x),
{
    if q.contains(e) {
        let k = choose|k: int| 0 <= k < q.len() && q[k] == e;
        assert(q.push(x)[k] == e);
    }
    if e == x {
        assert(q.push(x)[q.len() as int] == e);
    }
    if q.push(x).contains(e) {
        let k = choose|k: int| 0 <= k < q.push(x).len() && q.push(x)[k] == e;
        if k < q.len() {
            assert(q[k] == e);
        }
    }
}

/// The kept records are exactly the old records that satisfy `keep`.
pub proof fn lemma_kept_contains(s: Seq<EntryView>, keep: spec_fn(EntryView) -> bool, e: EntryView)
    ensures
        kept(s, keep).contains(e) <==> (s.contains(e) && keep(e)),
    decreases s.len(),
{
    if s.len() > 0 {
        let t = s.drop_last();
        lemma_kept_contains(t, keep, e);
        let rest = kept(t, keep);
        assert(s =~= t.push(s.last()));
        lemma_push_contains(t, s.last(), e);
        lemma_push_contains(rest, s.last(), e);
    }
}

proof fn lemma_wf_drop_last(s: Seq<EntryView>)
    requires
        registry_wf(s),
        s.len() > 0,
    ensures
        registry_wf(s.drop_last()),
{
    let t = s.drop_last();
    assert forall|i: int, j: int|
        0 <= i < t.len() && 0 <= j < t.len() && i != j implies t[i].reference_id
        != t[j].reference_id && (t[i].directory_reference_id
        != t[j].directory_reference_id || t[i].relative_path != t[j].relative_path) by {
        assert(t[i] == s[i] && t[j] == s[j]);
        assert(s[i].reference_id != s[j].reference_id && (s[i].directory_reference_id
            != s[j].directory_reference_id || s[i].relative_path != s[j].relative_path));
    }
}

/// Appending a record whose id and place are new keeps the registry well
/// formed.
proof fn lemma_wf_push(s: Seq<EntryView>, e: EntryView)
    requires
        registry_wf(s),
        forall|i: int| 0 <= i < s.len() ==> (#[trigger] s[i]).reference_id != e.reference_id,
        forall|i: int|
            0 <= i < s.len() ==> (#[trigger] s[i]).directory_reference_id != e.directory_reference_id
                || s[i].relative_path != e.relative_path,
    ensures
        registry_wf(s.push(e)),
{
    let o = s.push(e);
    assert forall|a: int, b: int|
        0 <= a < o.len() && 0 <= b < o.len() && a != b implies o[a].reference_id
        != o[b].reference_id && (o[a].directory_reference_id
        != o[b].directory_reference_id || o[a].relative_path != o[b].relative_path) by {
        if a < s.len() && b < s.len() {
            assert(o[a] == s[a] && o[b] == s[b]);
        } else if a < s.len() {
            assert(o[a] == s[a] && o[b] == e);
        } else {
            assert(o[b] == s[b] && o[a] == e);
        }
    }
}

/// Keeping some of the records keeps the registry well formed.
pub proof fn lemma_kept_wf(s: Seq<EntryView>, keep: spec_fn(EntryView) -> bool)
    requires
        registry_wf(s),
    ensures
        registry_wf(kept(s, keep)),
    decreases s.len(),
{
    if s.len() > 0 {
        let t = s.drop_last();
        lemma_wf_drop_last(s);
        lemma_kept_wf(t, keep);
        let rest = kept(t, keep);
        if keep(s.last()) {
            assert forall|i: int| 0 <= i < rest.len() implies (#[trigger] rest[i]).reference_id
                != s.last().reference_id && (rest[i].directory_reference_id
                != s.last().directory_reference_id || rest[i].relative_path
                != s.last().relative_path) by {
                assert(rest.contains(rest[i]));
                lemma_kept_contains(t, keep, rest[i]);
                let j = choose|j: int| 0 <= j < t.len() && t[j] == rest[i];
                assert(s[j] == rest[i]);
                assert(s[s.len() - 1] == s.last());
            }
            lemma_wf_push(rest, s.last());
        }
    }
}

/// The entries of authorized directories shown to the agent.
pub struct EntryRegistry {
    entries: Vec<DirectoryEntryRecord>,
}

impl EntryRegistry {
    pub closed spec fn records(&self) -> Seq<EntryView> {
        records_view(self.entries@)
    }

    pub open spec fn wf(&self) -> bool {
        registry_wf(self.records())
    }

    pub fn new() -> (r: Self)
        ensures
            r.records() == Seq::<EntryView>::empty(),
            r.wf(),
    {
        let r = EntryRegistry { entries: Vec::new() };
        assert(r.records() =~= Seq::<EntryView>::empty());
        r
    }

    /// The index of the record with this id, if any.
    fn index_of(&self, reference_id: &str) -> (r: Option<usize>)
        ensures
            r matches Some(i) ==> i < self.records().len() && self.records()[i as int].reference_id
                == reference_id@,
            r is None ==> forall|i: int|
                0 <= i < self.records().len() ==> (#[trigger] self.records()[i]).reference_id
                    != reference_id@,
    {
        let mut i: usize = 0;
        while i < self.entries.len()
            invariant
                i <= self.entries@.len(),
                forall|j: int|
                    0 <= j < i ==> (#[trigger] self.records()[j]).reference_id != reference_id@,
            decreases self.entries@.len() - i,
        {
            if str_eq(self.entries[i].reference_id.as_str(), reference_id) {
                return Some(i);
            }
            i = i + 1;
        }
        None
    }

    /// Whether the id names an entry of `directory_reference_id` at
    /// `relative_path`.
    pub fn validates(&self, directory_reference_id: &str, reference_id: &str, relative_path: &str) -> (r: bool)
        requires
            self.wf(),
        ensures
            r == has_entry(self.records(), reference_id@, directory_reference_id@, relative_path@),
    {
        match self.index_of(reference_id) {
            Some(i) => {
                let e = &self.entries[i];
                str_eq(e.directory_reference_id.as_str(), directory_reference_id) && str_eq(
                    e.relative_path.as_str(),
                    relative_path,
                )
            },
            None => false,
        }
    }

    /// The entry with this id if it belongs to `directory_reference_id`.
    pub fn entry(&self, directory_reference_id: &str, reference_id: &str) -> (r: Result<
        DirectoryEntryRecord,
        FileError,
    >)
        requires
            self.wf(),
        ensures
            r is Ok <==> exists|i: int|
                0 <= i < self.records().len() && (#[trigger] self.records()[i]).reference_id
                    == reference_id@ && self.records()[i].directory_reference_id
                    == directory_reference_id@,
            r matches Ok(e) ==> self.records().contains(e@) && e@.reference_id == reference_id@,
            r matches Err(e) ==> e == FileError::EntryReferenceInvalid,
    {
        match self.index_of(reference_id) {
            Some(i) => {
                if str_eq(self.entries[i].directory_reference_id.as_str(), directory_reference_id) {
                    let e = self.entries[i].duplicate();
                    assert(self.records()[i as int] == e@);
                    Ok(e)
                } else {
                    Err(FileError::EntryReferenceInvalid)
                }
            },
            None => Err(FileError::EntryReferenceInvalid),
        }
    }

    /// The entry with this id, whatever directory it belongs to.
    pub fn get(&self, reference_id: &str) -> (r: Option<DirectoryEntryRecord>)
        requires
            self.wf(),
        ensures
            r is Some <==> exists|i: int|
                0 <= i < self.records().len() && (#[trigger] self.records()[i]).reference_id
                    == reference_id@,
            r matches Some(e) ==> self.records().contains(e@) && e@.reference_id == reference_id@,
    {
        match self.index_of(reference_id) {
            Some(i) => {
                let e = self.entries[i].duplicate();
                assert(self.records()[i as int] == e@);
                Some(e)
            },
            None => None,
        }
    }

    /// Forgets the records of `directory_reference_id` under `prefix`
    /// (all of them when there is no prefix).
    pub fn forget_tree(&mut self, directory_reference_id: &str, prefix: Option<&str>)
        requires
            old(self).wf(),
        ensures
            final(self).wf(),
            final(self).records() == kept(
                old(self).records(),
                outside(
                    directory_reference_id@,
                    match prefix {
                        Some(p) => Some(p@),
                        None => None,
                    },
                ),
            ),
    {
        let ghost pre = match prefix {
            Some(p) => Some(p@),
            None => None::<Seq<char>>,
        };
        let ghost old_s = self.records();
        let mut keep_list: Vec<DirectoryEntryRecord> = Vec::new();
        let mut old_entries: Vec<DirectoryEntryRecord> = Vec::new();
        std::mem::swap(&mut old_entries, &mut self.entries);
        assert(records_view(old_entries@) == old_s);
        let n = old_entries.len();
        let mut i: usize = 0;
        assert(old_s.take(0) =~= Seq::<EntryView>::empty());
        assert(records_view(keep_list@) =~= Seq::<EntryView>::empty());
        while i < n
            invariant
                n == old_entries@.len(),
                records_view(old_entries@) == old_s,
                registry_wf(old_s),
                i <= n,
                records_view(keep_list@) == kept(old_s.take(i as int), outside(directory_reference_id@, pre)),
                pre == match prefix {
                    Some(p) => Some(p@),
                    None => None::<Seq<char>>,
                },
            decreases n - i,
        {
            let e = &old_entries[i];
            let remove = str_eq(e.directory_reference_id.as_str(), directory_reference_id) && match prefix {
                None => true,
                Some(p) => path_starts_with(e.relative_path.as_str(), p),
            };
            assert(old_s[i as int] == e@);
            assert(remove == in_tree(old_s[i as int], directory_reference_id@, pre));
            assert(old_s.take(i + 1).drop_last() =~= old_s.take(i as int));
            assert(old_s.take(i + 1).last() == old_s[i as int]);
            if !remove {
                let ghost before = records_view(keep_list@);
                let copy = e.duplicate();
                keep_list.push(copy);
                assert(records_view(keep_list@) =~= before.push(old_s[i as int]));
            }
            i = i + 1;
        }
        assert(old_s.take(n as int) =~= old_s);
        proof {
            lemma_kept_wf(old_s, outside(directory_reference_id@, pre));
        }
        self.entries = keep_list;
    }

    /// Forgets the record with this id, if any.
    fn forget_id(&mut self, reference_id: &str)
        requires
            old(self).wf(),
        ensures
            final(self).wf(),
            final(self).records() == kept(old(self).records(), other_id(reference_id@)),
    {
        let ghost old_s = self.records();
        let mut keep_list: Vec<DirectoryEntryRecord> = Vec::new();
        let mut old_entries: Vec<DirectoryEntryRecord> = Vec::new();
        std::mem::swap(&mut old_entries, &mut self.entries);
        assert(records_view(old_entries@) == old_s);
        let n = old_entries.len();
        let mut i: usize = 0;
        assert(old_s.take(0) =~= Seq::<EntryView>::empty());
        assert(records_view(keep_list@) =~= Seq::<EntryView>::empty());
        while i < n
            invariant
                n == old_entries@.len(),
                records_view(old_entries@) == old_s,
                i <= n,
                records_view(keep_list@) == kept(old_s.take(i as int), other_id(reference_id@)),
            decreases n - i,
        {
            let e = &old_entries[i];
            let same = str_eq(e.reference_id.as_str(), reference_id);
            assert(old_s[i as int] == e@);
            assert(old_s.take(i + 1).drop_last() =~= old_s.take(i as int));
            assert(old_s.take(i + 1).last() == old_s[i as int]);
            if !same {
                let ghost before = records_view(keep_list@);
                let copy = e.duplicate();
                keep_list.push(copy);
                assert(records_view(keep_list@) =~= before.push(old_s[i as int]));
            }
            i = i + 1;
        }
        assert(old_s.take(n as int) =~= old_s);
        proof {
            lemma_kept_wf(old_s, other_id(reference_id@));
        }
        self.entries = keep_list;
    }

    /// The id of the entry of `directory_reference_id` at `relative_path`:
    /// the one it already has, or a fresh one under which it is recorded.
    pub fn register(
        &mut self,
        directory_reference_id: &str,
        selected_root: &[PathPart],
        canonical_root: &[PathPart],
        selected_path: Vec<PathPart>,
        relative_path: String,
        name: String,
    ) -> (id: String)
        requires
            old(self).wf(),
        ensures
            final(self).wf(),
            has_entry(final(self).records(), id@, directory_reference_id@, relative_path@),
            placed(old(self).records(), directory_reference_id@, relative_path@)
                ==> final(self).records() == old(self).records(),
            final(self).records() == after_register(
                old(self).records(),
                EntryView {
                    reference_id: id@,
                    directory_reference_id: directory_reference_id@,
                    selected_root: parts_view(selected_root@),
                    canonical_root: parts_view(canonical_root@),
                    selected_path: parts_view(selected_path@),
                    name: name@,
                    relative_path: relative_path@,
                },
            ),
    {
        let mut i: usize = 0;
        while i < self.entries.len()
            invariant
                self.wf(),
                i <= self.entries@.len(),
                forall|j: int|
                    0 <= j < i ==> !((#[trigger] self.records()[j]).directory_reference_id
                        == directory_reference_id@ && self.records()[j].relative_path
                        == relative_path@),
            decreases self.entries@.len() - i,
        {
            let e = &self.entries[i];
            if str_eq(e.directory_reference_id.as_str(), directory_reference_id) && str_eq(
                e.relative_path.as_str(),
                relative_path.as_str(),
            ) {
                assert(self.records()[i as int] == e@);
                return e.reference_id.clone();
            }
            i = i + 1;
        }
        assert(!placed(self.records(), directory_reference_id@, relative_path@));
        let ghost old_s = self.records();
        let id = new_reference_id();
        self.forget_id(id.as_str());
        let record = DirectoryEntryRecord {
            reference_id: id.clone(),
            directory_reference_id: directory_reference_id.to_owned(),
            selected_root: copy_parts(selected_root),
            canonical_root: copy_parts(canonical_root),
            selected_path,
            name,
            relative_path,
        };
        let ghost rv = record@;
        let ghost mid = self.records();
        proof {
            assert forall|k: int| 0 <= k < mid.len() implies (#[trigger] mid[k]).reference_id
                != rv.reference_id && (mid[k].directory_reference_id != rv.directory_reference_id
                || mid[k].relative_path != rv.relative_path) by {
                assert(mid.contains(mid[k]));
                lemma_kept_contains(old_s, other_id(id@), mid[k]);
                let j = choose|j: int| 0 <= j < old_s.len() && old_s[j] == mid[k];
                assert(old_s[j] == mid[k]);
            }
            lemma_wf_push(mid, rv);
        }
        self.entries.push(record);
        assert(self.records() =~= mid.push(rv));
        assert(self.records()[mid.len() as int] == rv);
        id
    }

    /// Forgets every record.
    pub fn clear(&mut self)
        ensures
            final(self).records() == Seq::<EntryView>::empty(),
            final(self).wf(),
    {
        self.entries = Vec::new();
        assert(self.records() =~= Seq::<EntryView>::empty());
    }
}

/// An id names at most one record: once an entry is recorded under an id,
/// every record with that id is that entry, of that directory at that
/// relative path.
pub proof fn lemma_id_names_one_entry(
    s: Seq<EntryView>,
    id: Seq<char>,
    dir: Seq<char>,
    rel: Seq<char>,
    e: EntryView,
)
    requires
        registry_wf(s),
        has_entry(s, id, dir, rel),
        s.contains(e),
        e.reference_id == id,
    ensures
        e.directory_reference_id == dir,
        e.relative_path == rel,
{
    let i = choose|i: int|
        0 <= i < s.len() && (#[trigger] s[i]).reference_id == id && s[i].directory_reference_id
            == dir && s[i].relative_path == rel;
    let j = choose|j: int| 0 <= j < s.len() && s[j] == e;
    if i != j {
        assert(s[i].reference_id != s[j].reference_id);
    }
}

} // verus!
