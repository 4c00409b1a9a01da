//! The decisions of walking an authorized directory: what a listing shows,
//! what a search finds, and what a copy may take.

use vstd::prelude::*;

use crate::errors::FileError;
use crate::files::registry::{has_entry, EntryRegistry};
use crate::files::scopes::{kind_of, AuthorizedDirectory, FsKind};
use crate::files::{
    DirectorySearchKind, MAX_COPY_BYTES, MAX_COPY_DEPTH, MAX_COPY_ENTRIES, MAX_DIRECTORY_ENTRIES,
    MAX_DIRECTORY_SEARCH_DEPTH, MAX_DIRECTORY_SEARCH_RESULTS,
};
use crate::files::registry::copy_parts;
use crate::paths::{
    child_relative_path, child_relative_path_of, display_path, parts_prefix, parts_start_with,
    parts_view, PartView, PathPart,
};
use crate::text::{chars_of, lowercase_of, to_lowercase};

verus! {

/// Whether `a` sorts before `b`: character by character, a proper prefix
/// first.
pub open spec fn seq_lt(a: Seq<char>, b: Seq<char>) -> bool
    decreases a.len(),
{
    if a.len() == 0 {
        b.len() > 0
    } else if b.len() == 0 {
        false
    } else if (a[0] as u32) < (b[0] as u32) {
        true
    } else if a[0] == b[0] {
        seq_lt(a.drop_first(), b.drop_first())
    } else {
        false
    }
}

pub proof fn lemma_seq_lt_irreflexive(a: Seq<char>)
    ensures
        !seq_lt(a, a),
    decreases a.len(),
{
    if a.len() > 0 {
        lemma_seq_lt_irreflexive(a.drop_first());
    }
}

pub proof fn lemma_seq_lt_transitive(a: Seq<char>, b: Seq<char>, c: Seq<char>)
    requires
        seq_lt(a, b),
        seq_lt(b, c),
    ensures
        seq_lt(a, c),
    decreases a.len(),
{
    if a.len() > 0 && b.len() > 0 && c.len() > 0 {
        if a[0] == b[0] && b[0] == c[0] {
            lemma_seq_lt_transitive(a.drop_first(), b.drop_first(), c.drop_first());
        }
    }
}

/// Whether `a` sorts before `b`.
pub fn str_lt(a: &str, b: &str) -> (r: bool)
    ensures
        r == seq_lt(a@, b@),
{
    let x = chars_of(a);
    let y = chars_of(b);
    let mut i: usize = 0;
    assert(a@.skip(0) =~= a@);
    assert(b@.skip(0) =~= b@);
    while i < x.len() && i < y.len() && x[i] == y[i]
        invariant
            i <= x@.len(),
            i <= y@.len(),
            x@ == a@,
            y@ == b@,
            seq_lt(a@, b@) == seq_lt(a@.skip(i as int), b@.skip(i as int)),
        decreases x@.len() - i,
    {
        assert(a@.skip(i as int).drop_first() =~= a@.skip(i + 1));
        assert(b@.skip(i as int).drop_first() =~= b@.skip(i + 1));
        i = i + 1;
    }
    if i == x.len() {
        i < y.len()
    } else if i == y.len() {
        false
    } else {
        (x[i] as u32) < (y[i] as u32)
    }
}

/// One direct child of a listed directory.
#[derive(Debug, PartialEq, Eq)]
pub struct DirectoryEntry {
    pub name: String,
    pub kind: &'static str,
    pub size: Option<u64>,
    pub target_reference_id: Option<String>,
}

/// The children of a directory as the agent sees them.
#[derive(Debug, PartialEq, Eq)]
pub struct DirectoryListing {
    pub entries: Vec<DirectoryEntry>,
    pub truncated: bool,
}

/// How a child of this kind is listed.
pub open spec fn listing_kind(kind: FsKind) -> Seq<char> {
    match kind {
        FsKind::Symlink => "symlink"@,
        FsKind::Directory => "directory"@,
        FsKind::File => "file"@,
        FsKind::Other => "other"@,
    }
}

/// A listed child's kind names its file-system kind, and different kinds
/// are listed under different names.
pub proof fn lemma_listing_kinds_are_named(a: FsKind, b: FsKind)
    ensures
        listing_kind(FsKind::Directory) == "directory"@,
        listing_kind(FsKind::File) == "file"@,
        listing_kind(FsKind::Symlink) == "symlink"@,
        listing_kind(FsKind::Other) == "other"@,
        listing_kind(a) == listing_kind(b) ==> a == b,
{
    reveal_strlit("directory");
    reveal_strlit("file");
    reveal_strlit("symlink");
    reveal_strlit("other");
    if listing_kind(a) == listing_kind(b) {
        assert(listing_kind(a).len() == listing_kind(b).len());
        assert(listing_kind(a)[0] == listing_kind(b)[0]);
    }
}

/// Whether a listing holding `count` children can show one more.
pub fn listing_has_room(count: usize) -> (r: bool)
    ensures
        r == (count < MAX_DIRECTORY_ENTRIES),
{
    count < MAX_DIRECTORY_ENTRIES
}

impl AuthorizedDirectory {
    /// Lists one more child. Files and directories are recorded so that
    /// the agent can name them later; symbolic links and other kinds are
    /// shown but not recorded.
    pub fn list_child(
        &self,
        entries: &mut EntryRegistry,
        listing: &mut Vec<DirectoryEntry>,
        selected_path: Vec<PathPart>,
        name: String,
        kind: FsKind,
        len: u64,
    )
        requires
            old(entries).wf(),
        ensures
            final(entries).wf(),
            final(listing)@.len() == old(listing)@.len() + 1,
            forall|i: int|
                0 <= i < old(listing)@.len() ==> #[trigger] final(listing)@[i] == old(listing)@[i],
            ({
                let e = final(listing)@[old(listing)@.len() as int];
                &&& e.name@ == name@
                &&& e.kind@ == listing_kind(kind)
                &&& e.size == (if kind == FsKind::File {
                    Some(len)
                } else {
                    None
                })
                &&& (kind == FsKind::File || kind == FsKind::Directory) ==> (e.target_reference_id matches Some(
                    id,
                ) && has_entry(final(entries).records(), id@, self@.reference_id, display_path(name@)))
                &&& !(kind == FsKind::File || kind == FsKind::Directory) ==> e.target_reference_id is None
                &&& !(kind == FsKind::File || kind == FsKind::Directory) ==> final(entries).records()
                    == old(entries).records()
            }),
    {
        let entry = match kind {
            FsKind::Symlink => DirectoryEntry {
                name,
                kind: "symlink",
                size: None,
                target_reference_id: None,
            },
            FsKind::Directory => {
                let id = self.register_entry(entries, selected_path, name.as_str(), name.clone());
                DirectoryEntry { name, kind: "directory", size: None, target_reference_id: Some(id) }
            },
            FsKind::File => {
                let id = self.register_entry(entries, selected_path, name.as_str(), name.clone());
                DirectoryEntry { name, kind: "file", size: Some(len), target_reference_id: Some(id) }
            },
            FsKind::Other => DirectoryEntry {
                name,
                kind: "other",
                size: None,
                target_reference_id: None,
            },
        };
        listing.push(entry);
    }
}

/// Whether `s` is ordered by the keys of its items.
pub open spec fn sorted_by_key<A: SortKey>(s: Seq<A>) -> bool {
    forall|i: int, j: int| #![trigger s[i], s[j]] 0 <= i < j < s.len() ==> !seq_lt(s[j].key(), s[i].key())
}

/// Items that are shown in the order of a text key.
pub trait SortKey: Sized {
    spec fn key(&self) -> Seq<char>;

    fn sort_key(&self) -> (r: &str)
        ensures
            r@ == self.key(),
    ;
}

impl SortKey for DirectoryEntry {
    open spec fn key(&self) -> Seq<char> {
        self.name@
    }

    fn sort_key(&self) -> (r: &str) {
        self.name.as_str()
    }
}

/// Orders items by their keys.
pub fn sort_by_key<A: SortKey>(items: Vec<A>) -> (r: Vec<A>)
    ensures
        sorted_by_key(r@),
        r@.to_multiset() == items@.to_multiset(),
{
    broadcast use vstd::seq_lib::group_to_multiset_ensures;

    let ghost all = items@;
    let mut rest = items;
    let mut r: Vec<A> = Vec::new();
    while rest.len() > 0
        invariant
            sorted_by_key(r@),
            r@.to_multiset().add(rest@.to_multiset()) == all.to_multiset(),
        decreases rest@.len(),
    {
        let ghost before_rest = rest@;
        let x = rest.remove(0);
        proof {
            vstd::seq_lib::to_multiset_remove(before_rest, 0);
            assert(before_rest[0] == x);
            assert(before_rest.contains(x));
            before_rest.to_multiset_ensures();
            assert(before_rest.to_multiset().count(x) > 0);
        }
        let mut p: usize = 0;
        while p < r.len() && !str_lt(x.sort_key(), r[p].sort_key())
            invariant
                p <= r@.len(),
                forall|i: int| 0 <= i < p ==> !seq_lt(x.key(), (#[trigger] r@[i]).key()),
            decreases r@.len() - p,
        {
            p = p + 1;
        }
        let ghost before = r@;
        proof {
            if p < before.len() {
                assert forall|q: int| p <= q < before.len() implies !seq_lt(
                    (#[trigger] before[q]).key(),
                    x.key(),
                ) by {
                    if seq_lt(before[q].key(), x.key()) {
                        if q > p {
                            assert(!seq_lt(before[q].key(), before[p as int].key()));
                            lemma_seq_lt_transitive(before[q].key(), x.key(), before[p as int].key());
                        } else {
                            lemma_seq_lt_transitive(x.key(), before[q].key(), x.key());
                            lemma_seq_lt_irreflexive(x.key());
                        }
                    }
                }
            }
        }
        r.insert(p, x);
        proof {
            vstd::seq_lib::to_multiset_insert(before, p as int, x);
            assert forall|i: int, j: int| #![trigger r@[i], r@[j]] 0 <= i < j < r@.len() implies !seq_lt(
                r@[j].key(),
                r@[i].key(),
            ) by {
                if j < p {
                    assert(r@[i] == before[i] && r@[j] == before[j]);
                } else if j == p {
                    assert(r@[i] == before[i]);
                } else if i == p {
                    assert(r@[j] == before[j - 1]);
                } else if i < p {
                    assert(r@[i] == before[i] && r@[j] == before[j - 1]);
                } else {
                    assert(r@[i] == before[i - 1] && r@[j] == before[j - 1]);
                }
            }
            assert(r@.to_multiset().add(rest@.to_multiset()) =~= all.to_multiset());
        }
    }
    assert(rest@.to_multiset() =~= vstd::multiset::Multiset::<A>::empty());
    assert(r@.to_multiset() =~= all.to_multiset());
    r
}

/// A listing in order of name.
pub fn finish_listing(entries: Vec<DirectoryEntry>, truncated: bool) -> (r: DirectoryListing)
    ensures
        sorted_by_key(r.entries@),
        r.entries@.to_multiset() == entries@.to_multiset(),
        r.truncated == truncated,
{
    DirectoryListing { entries: sort_by_key(entries), truncated }
}

/// How the child `child` (name, kind, size) is shown in a listing.
pub open spec fn listed_as(e: DirectoryEntry, child: (Seq<char>, FsKind, u64)) -> bool {
    &&& e.name@ == child.0
    &&& e.kind@ == listing_kind(child.1)
    &&& e.size == (if child.1 == FsKind::File {
        Some(child.2)
    } else {
        None
    })
    &&& (e.target_reference_id is Some <==> (child.1 == FsKind::File || child.1
        == FsKind::Directory))
}

/// A listing being read, child by child: it shows the first
/// `MAX_DIRECTORY_ENTRIES` children it meets and notes whether there were
/// more.
pub struct ListingWalk {
    entries: Vec<DirectoryEntry>,
    truncated: bool,
    children: Ghost<Seq<(Seq<char>, FsKind, u64)>>,
    met: Ghost<nat>,
}

impl ListingWalk {
    /// The children shown so far: name, kind and size, in the order met.
    pub closed spec fn children(&self) -> Seq<(Seq<char>, FsKind, u64)> {
        self.children@
    }

    /// How many children were met so far.
    pub closed spec fn met(&self) -> nat {
        self.met@
    }

    /// The listed entries so far, in the order met.
    pub closed spec fn shown(&self) -> Seq<DirectoryEntry> {
        self.entries@
    }

    pub closed spec fn is_truncated(&self) -> bool {
        self.truncated
    }

    /// The first children met are shown, up to the limit, each as it was
    /// met; the listing is cut exactly when more were met.
    pub open spec fn wf(&self) -> bool {
        &&& self.shown().len() == (if self.met() <= MAX_DIRECTORY_ENTRIES {
            self.met()
        } else {
            MAX_DIRECTORY_ENTRIES as nat
        })
        &&& self.children().len() == self.shown().len()
        &&& self.is_truncated() == (self.met() > MAX_DIRECTORY_ENTRIES)
        &&& forall|k: int|
            0 <= k < self.shown().len() ==> listed_as(#[trigger] self.shown()[k], self.children()[k])
    }

    /// Nothing met yet.
    pub fn new() -> (r: Self)
        ensures
            r.wf(),
            r.met() == 0,
    {
        let r = ListingWalk {
            entries: Vec::new(),
            truncated: false,
            children: Ghost(Seq::empty()),
            met: Ghost(0),
        };
        r
    }

    /// Whether the listing shows as many children as it can.
    pub fn is_full(&self) -> (r: bool)
        requires
            self.wf(),
        ensures
            r == (self.met() >= MAX_DIRECTORY_ENTRIES),
    {
        self.entries.len() >= MAX_DIRECTORY_ENTRIES
    }

    /// Shows the next child of the directory and, when it is a file or a
    /// directory, records it.
    pub fn offer(
        &mut self,
        directory: &AuthorizedDirectory,
        entries: &mut EntryRegistry,
        selected_path: Vec<PathPart>,
        name: String,
        kind: FsKind,
        len: u64,
    )
        requires
            old(self).wf(),
            old(self).met() < MAX_DIRECTORY_ENTRIES,
            old(entries).wf(),
        ensures
            final(self).wf(),
            final(entries).wf(),
            final(self).met() == old(self).met() + 1,
            final(self).children() == old(self).children().push((name@, kind, len)),
            final(self).shown().drop_last() == old(self).shown(),
            (kind == FsKind::File || kind == FsKind::Directory) ==> (
            final(self).shown().last().target_reference_id matches Some(id) && has_entry(
                final(entries).records(),
                id@,
                directory@.reference_id,
                display_path(name@),
            )),
            !(kind == FsKind::File || kind == FsKind::Directory) ==> final(entries).records()
                == old(entries).records(),
    {
        let ghost child = (name@, kind, len);
        let ghost before = self.entries@;
        directory.list_child(entries, &mut self.entries, selected_path, name, kind, len);
        proof {
            self.children@ = self.children@.push(child);
            self.met@ = self.met@ + 1;
            assert(self.entries@.drop_last() =~= before);
            assert forall|k: int| 0 <= k < self.entries@.len() implies listed_as(
                #[trigger] self.entries@[k],
                self.children@[k],
            ) by {
                if k < before.len() {
                    assert(self.entries@[k] == before[k]);
                }
            }
        }
    }

    /// Meets a child when the listing is full: it is not shown, and the
    /// listing is cut.
    pub fn cut(&mut self)
        requires
            old(self).wf(),
            old(self).met() >= MAX_DIRECTORY_ENTRIES,
        ensures
            final(self).wf(),
            final(self).met() == old(self).met() + 1,
            final(self).shown() == old(self).shown(),
            final(self).children() == old(self).children(),
            final(self).is_truncated(),
    {
        self.truncated = true;
        proof {
            self.met@ = self.met@ + 1;
        }
    }

    /// The listing in order of name: the first `MAX_DIRECTORY_ENTRIES`
    /// children met, each as it was met, and cut exactly when more children
    /// were met.
    pub fn finish(self) -> (r: DirectoryListing)
        requires
            self.wf(),
        ensures
            sorted_by_key(r.entries@),
            r.entries@.to_multiset() == self.shown().to_multiset(),
            r.entries@.len() == (if self.met() <= MAX_DIRECTORY_ENTRIES {
                self.met()
            } else {
                MAX_DIRECTORY_ENTRIES as nat
            }),
            r.truncated == (self.met() > MAX_DIRECTORY_ENTRIES),
            forall|e: DirectoryEntry|
                #[trigger] r.entries@.contains(e) ==> exists|k: int|
                    0 <= k < self.children().len() && listed_as(e, #[trigger] self.children()[k]),
    {
        let ghost shown = self.entries@;
        let ghost children = self.children@;
        let r = finish_listing(self.entries, self.truncated);
        proof {
            shown.to_multiset_ensures();
            r.entries@.to_multiset_ensures();
            assert forall|e: DirectoryEntry| #[trigger] r.entries@.contains(e) implies exists|k: int|
                0 <= k < children.len() && listed_as(e, #[trigger] children[k]) by {
                assert(r.entries@.to_multiset().count(e) > 0);
                assert(shown.contains(e));
                let k = choose|k: int| 0 <= k < shown.len() && shown[k] == e;
                assert(listed_as(shown[k], children[k]));
            }
        }
        r
    }
}

/// What a search does with a child it meets.
#[derive(Debug, Clone, Copy, PartialEq, Eq, Structural)]
pub enum SearchVisit {
    /// Not a candidate: a symbolic link, too deep, or neither file nor
    /// directory.
    Skip,
    /// A candidate, whose children are searched too when `descend`.
    Consider { descend: bool },
}

/// What a search does with a child at `depth + 1` of this kind.
pub open spec fn search_visit_of(depth: int, kind: FsKind) -> SearchVisit {
    if kind == FsKind::Symlink || depth + 1 > MAX_DIRECTORY_SEARCH_DEPTH {
        SearchVisit::Skip
    } else if kind == FsKind::Directory {
        SearchVisit::Consider { descend: depth + 1 < MAX_DIRECTORY_SEARCH_DEPTH }
    } else if kind == FsKind::File {
        SearchVisit::Consider { descend: false }
    } else {
        SearchVisit::Skip
    }
}

/// A search never looks at symbolic links or special files, nor at
/// anything more than `MAX_DIRECTORY_SEARCH_DEPTH` levels below the root;
/// it considers every file and directory within that depth, and walks into
/// a directory only when its children are still within it.
pub proof fn lemma_search_visits_within_depth(depth: int, kind: FsKind)
    ensures
        kind == FsKind::Symlink || kind == FsKind::Other ==> search_visit_of(depth, kind)
            == SearchVisit::Skip,
        depth + 1 > 4 ==> search_visit_of(depth, kind) == SearchVisit::Skip,
        (kind == FsKind::File || kind == FsKind::Directory) && depth + 1 <= 4
            ==> search_visit_of(depth, kind) is Consider,
        search_visit_of(depth, kind) matches SearchVisit::Consider { descend } ==> (descend <==> (
        kind == FsKind::Directory && depth + 2 <= 4)),
{
}

pub fn search_visit(depth: usize, kind: FsKind) -> (r: SearchVisit)
    ensures
        r == search_visit_of(depth as int, kind),
{
    if kind == FsKind::Symlink || depth >= MAX_DIRECTORY_SEARCH_DEPTH {
        SearchVisit::Skip
    } else if kind == FsKind::Directory {
        SearchVisit::Consider { descend: depth + 1 < MAX_DIRECTORY_SEARCH_DEPTH }
    } else if kind == FsKind::File {
        SearchVisit::Consider { descend: false }
    } else {
        SearchVisit::Skip
    }
}

/// Whether `needle` occurs in `hay` as a contiguous run.
pub open spec fn contains_run(hay: Seq<char>, needle: Seq<char>) -> bool {
    exists|i: int|
        0 <= i && i + needle.len() <= hay.len() && #[trigger] hay.subrange(i, i + needle.len())
            == needle
}

/// Whether `needle` occurs in `hay`.
pub fn str_contains(hay: &str, needle: &str) -> (r: bool)
    ensures
        r == contains_run(hay@, needle@),
{
    let h = chars_of(hay);
    let n = chars_of(needle);
    if n.len() > h.len() {
        return false;
    }
    let last = h.len() - n.len();
    let mut i: usize = 0;
    while i <= last
        invariant
            n@.len() <= h@.len(),
            h@ == hay@,
            n@ == needle@,
            last == h@.len() - n@.len(),
            i <= last + 1,
            forall|k: int| 0 <= k < i ==> #[trigger] h@.subrange(k, k + n@.len()) != n@,
        decreases last + 1 - i,
    {
        let mut j: usize = 0;
        let mut same = true;
        while same && j < n.len()
            invariant
                i + n@.len() <= h@.len(),
                h@.len() == h.len(),
                h@ == hay@,
                n@ == needle@,
                i <= last,
                last == h@.len() - n@.len(),
                j <= n@.len(),
                forall|m: int| 0 <= m < j ==> h@[i + m] == n@[m],
                !same ==> j < n@.len() && h@[i + j] != n@[j as int],
            decreases n@.len() - j + (if same {
                1int
            } else {
                0int
            }),
        {
            if h[i + j] != n[j] {
                same = false;
            } else {
                j = j + 1;
            }
        }
        if j == n.len() {
            assert(h@.subrange(i as int, i + n@.len()) =~= n@);
            return true;
        }
        assert(h@.subrange(i as int, i + n@.len())[j as int] != n@[j as int]);
        if i == last {
            return false;
        }
        i = i + 1;
    }
    false
}

/// Whether an entry found by a search is shown: its lower-cased name
/// contains the lower-cased query, and its kind passes the filter.
pub open spec fn search_hit(name: Seq<char>, normalized_query: Seq<char>, filter: DirectorySearchKind, kind: DirectorySearchKind) -> bool {
    contains_run(lowercase_of(name), normalized_query) && (filter == DirectorySearchKind::Any
        || filter == kind)
}

/// A search shows only names that contain the query, in lower case, and
/// only entries of the kind it was asked for, unless it was asked for any
/// kind; an entry shown under a kind filter is shown without one too.
pub proof fn lemma_search_hits_respect_the_filter(
    name: Seq<char>,
    normalized_query: Seq<char>,
    filter: DirectorySearchKind,
    kind: DirectorySearchKind,
)
    ensures
        search_hit(name, normalized_query, filter, kind) ==> filter == DirectorySearchKind::Any
            || filter == kind,
        search_hit(name, normalized_query, filter, kind) ==> contains_run(
            lowercase_of(name),
            normalized_query,
        ),
        search_hit(name, normalized_query, filter, kind) ==> search_hit(
            name,
            normalized_query,
            DirectorySearchKind::Any,
            kind,
        ),
        filter != DirectorySearchKind::Any && filter != kind ==> !search_hit(
            name,
            normalized_query,
            filter,
            kind,
        ),
{
}

/// The query as a search compares it: in lower case.
pub fn normalize_query(query: &str) -> (r: String)
    ensures
        r@ == lowercase_of(query@),
{
    to_lowercase(query)
}

pub fn is_search_hit(
    name: &str,
    normalized_query: &str,
    filter: DirectorySearchKind,
    kind: DirectorySearchKind,
) -> (r: bool)
    ensures
        r == search_hit(name@, normalized_query@, filter, kind),
{
    let lowered = to_lowercase(name);
    str_contains(lowered.as_str(), normalized_query) && filter.matches(kind)
}

/// An entry a search found.
#[derive(Debug, PartialEq, Eq)]
pub struct DirectorySearchEntry {
    pub target_reference_id: String,
    pub name: String,
    pub relative_path: String,
    pub kind: DirectorySearchKind,
    pub size: Option<u64>,
}

/// What a search found, and whether it stopped at the limit.
#[derive(Debug, PartialEq, Eq)]
pub struct DirectorySearch {
    pub entries: Vec<DirectorySearchEntry>,
    pub truncated: bool,
}

impl SortKey for DirectorySearchEntry {
    open spec fn key(&self) -> Seq<char> {
        self.relative_path@
    }

    fn sort_key(&self) -> (r: &str) {
        self.relative_path.as_str()
    }
}

impl AuthorizedDirectory {
    /// Adds a hit to the results and records the entry, unless the results
    /// are full; then the search stops as truncated.
    pub fn record_search_hit(
        &self,
        entries: &mut EntryRegistry,
        results: &mut Vec<DirectorySearchEntry>,
        selected_path: Vec<PathPart>,
        relative_directory: &str,
        name: String,
        is_dir: bool,
        len: u64,
    ) -> (added: bool)
        requires
            old(entries).wf(),
        ensures
            final(entries).wf(),
            added == (old(results)@.len() < MAX_DIRECTORY_SEARCH_RESULTS),
            !added ==> final(results)@ == old(results)@ && final(entries).records() == old(
                entries,
            ).records(),
            added ==> final(results)@.len() == old(results)@.len() + 1,
            added ==> forall|i: int|
                0 <= i < old(results)@.len() ==> #[trigger] final(results)@[i] == old(results)@[i],
            added ==> ({
                let e = final(results)@[old(results)@.len() as int];
                &&& e.name@ == name@
                &&& e.relative_path@ == child_relative_path(relative_directory@, name@)
                &&& e.kind == kind_of(is_dir)
                &&& e.size == (if is_dir {
                    None
                } else {
                    Some(len)
                })
                &&& has_entry(
                    final(entries).records(),
                    e.target_reference_id@,
                    self@.reference_id,
                    e.relative_path@,
                )
            }),
    {
        if results.len() >= MAX_DIRECTORY_SEARCH_RESULTS {
            return false;
        }
        let relative_path = child_relative_path_of(relative_directory, name.as_str());
        let id = self.register_shown_entry(entries, selected_path, relative_path.clone(), name.clone());
        results.push(
            DirectorySearchEntry {
                target_reference_id: id,
                name,
                relative_path,
                kind: if is_dir {
                    DirectorySearchKind::Directory
                } else {
                    DirectorySearchKind::File
                },
                size: if is_dir {
                    None
                } else {
                    Some(len)
                },
            },
        );
        true
    }
}

/// What a search result must be: a hit for the query and the filter, at
/// most `MAX_DIRECTORY_SEARCH_DEPTH` levels below the root.
pub open spec fn valid_result(
    e: DirectorySearchEntry,
    depth: int,
    normalized_query: Seq<char>,
    filter: DirectorySearchKind,
) -> bool {
    &&& search_hit(e.name@, normalized_query, filter, e.kind)
    &&& 1 <= depth <= MAX_DIRECTORY_SEARCH_DEPTH
}

/// A search under way: the directories still to read, breadth first, and
/// the results found so far.
pub struct SearchWalk {
    root: Vec<PathPart>,
    query: String,
    filter: DirectorySearchKind,
    pending: Vec<(Vec<PathPart>, String, usize)>,
    current: Option<(String, usize)>,
    results: Vec<DirectorySearchEntry>,
    truncated: bool,
    depths: Ghost<Seq<int>>,
}

impl SearchWalk {
    /// The results so far, in the order found.
    pub closed spec fn results(&self) -> Seq<DirectorySearchEntry> {
        self.results@
    }

    /// How many levels below the root each result lies.
    pub closed spec fn depths(&self) -> Seq<int> {
        self.depths@
    }

    /// The query, in lower case.
    pub closed spec fn query(&self) -> Seq<char> {
        self.query@
    }

    pub closed spec fn filter(&self) -> DirectorySearchKind {
        self.filter
    }

    /// The canonical root of the search.
    pub closed spec fn root(&self) -> Seq<PartView> {
        parts_view(self.root@)
    }

    pub closed spec fn is_truncated(&self) -> bool {
        self.truncated
    }

    /// The directory being read: its path shown relative to the root, and
    /// how many levels below the root it lies.
    pub closed spec fn current(&self) -> Option<(Seq<char>, int)> {
        match self.current {
            Some(c) => Some((c.0@, c.1 as int)),
            None => None,
        }
    }

    /// The current directory shown relative to the root.
    pub open spec fn current_relative(&self) -> Seq<char> {
        self.current()->Some_0.0
    }

    /// Every result is a hit within the depth limit; there are at most
    /// `MAX_DIRECTORY_SEARCH_RESULTS`, and the search stops only with the
    /// results full; every directory still to read lies above the depth
    /// limit.
    pub closed spec fn wf(&self) -> bool {
        &&& self.depths@.len() == self.results@.len()
        &&& self.results@.len() <= MAX_DIRECTORY_SEARCH_RESULTS
        &&& self.truncated ==> self.results@.len() == MAX_DIRECTORY_SEARCH_RESULTS
        &&& forall|k: int|
            0 <= k < self.results@.len() ==> valid_result(
                #[trigger] self.results@[k],
                self.depths@[k],
                self.query@,
                self.filter,
            )
        &&& forall|k: int| 0 <= k < self.pending@.len() ==> (#[trigger] self.pending@[k]).2 < MAX_DIRECTORY_SEARCH_DEPTH
        &&& self.current matches Some(c) ==> c.1 < MAX_DIRECTORY_SEARCH_DEPTH
    }

    /// A search of the directory at `root` for `query` (compared in lower
    /// case), with nothing found yet.
    pub fn new(root: Vec<PathPart>, query: &str, filter: DirectorySearchKind) -> (r: Self)
        ensures
            r.wf(),
            r.results().len() == 0,
            r.query() == lowercase_of(query@),
            r.filter() == filter,
            r.root() == parts_view(root@),
            !r.is_truncated(),
    {
        let start = copy_parts(root.as_slice());
        let mut pending: Vec<(Vec<PathPart>, String, usize)> = Vec::new();
        pending.push((start, String::new(), 0));
        SearchWalk {
            root,
            query: normalize_query(query),
            filter,
            pending,
            current: None,
            results: Vec::new(),
            truncated: false,
            depths: Ghost(Seq::empty()),
        }
    }

    /// The path of the next directory to read, which becomes the current
    /// one; none once the search is done or stopped.
    pub fn next_directory(&mut self) -> (r: Option<Vec<PathPart>>)
        requires
            old(self).wf(),
        ensures
            final(self).wf(),
            final(self).results() == old(self).results(),
            final(self).depths() == old(self).depths(),
            final(self).query() == old(self).query(),
            final(self).filter() == old(self).filter(),
            final(self).root() == old(self).root(),
            final(self).is_truncated() == old(self).is_truncated(),
            old(self).is_truncated() ==> r is None,
            r is Some <==> final(self).current() is Some,
    {
        if self.truncated || self.pending.len() == 0 {
            self.current = None;
            return None;
        }
        let ghost before = self.pending@;
        let (path, relative, depth) = self.pending.remove(0);
        assert((path, relative, depth) == before[0]);
        assert forall|k: int| 0 <= k < self.pending@.len() implies (#[trigger] self.pending@[k]).2
            < MAX_DIRECTORY_SEARCH_DEPTH by {
            assert(self.pending@[k] == before[k + 1]);
        }
        self.current = Some((relative, depth));
        Some(path)
    }

    /// Whether a directory taken from the queue is read: it must still be a
    /// directory, not a link, and resolve inside the root.
    pub fn admits_directory(&self, kind: FsKind, resolved: &[PathPart]) -> (r: bool)
        ensures
            r == (kind == FsKind::Directory && parts_start_with(parts_view(resolved@), self.root())),
    {
        kind == FsKind::Directory && parts_prefix(resolved, self.root.as_slice())
    }

    /// Meets a child of the current directory: a directory above the depth
    /// limit is queued, and a hit is recorded among the results unless they
    /// are full, which stops the search. Returns whether the search goes
    /// on.
    pub fn visit_child(
        &mut self,
        directory: &AuthorizedDirectory,
        entries: &mut EntryRegistry,
        child_path: Vec<PathPart>,
        name: String,
        kind: FsKind,
        len: u64,
    ) -> (more: bool)
        requires
            old(self).wf(),
            old(entries).wf(),
            old(self).current() is Some,
        ensures
            final(self).wf(),
            final(entries).wf(),
            final(self).current() == old(self).current(),
            final(self).query() == old(self).query(),
            final(self).filter() == old(self).filter(),
            final(self).root() == old(self).root(),
            more == !final(self).is_truncated(),
            final(self).results().len() >= old(self).results().len(),
            forall|k: int|
                0 <= k < old(self).results().len() ==> #[trigger] final(self).results()[k]
                    == old(self).results()[k],
            final(self).results().len() > old(self).results().len() ==> final(self).results().last().relative_path@
                == child_relative_path(old(self).current_relative(), name@),
            final(self).results().len() > old(self).results().len() ==> ({
                let e = final(self).results().last();
                &&& e.name@ == name@
                &&& has_entry(
                    final(entries).records(),
                    e.target_reference_id@,
                    directory@.reference_id,
                    e.relative_path@,
                )
            }),
    {
        let (relative_directory, depth) = match &self.current {
            Some((relative, depth)) => (relative.clone(), *depth),
            None => {
                return !self.truncated;
            },
        };
        assert(relative_directory@ == old(self).current_relative());
        let relative_directory = relative_directory.as_str();
        let descend = match search_visit(depth, kind) {
            SearchVisit::Skip => {
                return !self.truncated;
            },
            SearchVisit::Consider { descend } => descend,
        };
        let is_dir = kind == FsKind::Directory;
        let entry_kind = if is_dir {
            DirectorySearchKind::Directory
        } else {
            DirectorySearchKind::File
        };
        if descend {
            let below = copy_parts(child_path.as_slice());
            let ghost before = self.pending@;
            self.pending.push((below, child_relative_path_of(relative_directory, name.as_str()), depth + 1));
            assert forall|k: int| 0 <= k < self.pending@.len() implies (#[trigger] self.pending@[k]).2
                < MAX_DIRECTORY_SEARCH_DEPTH by {
                if k < before.len() {
                    assert(self.pending@[k] == before[k]);
                }
            }
        }
        if !is_search_hit(name.as_str(), self.query.as_str(), self.filter, entry_kind) {
            return !self.truncated;
        }
        let ghost before = self.results@;
        let ghost hit_name = name@;
        let added = directory.record_search_hit(
            entries,
            &mut self.results,
            child_path,
            relative_directory,
            name,
            is_dir,
            len,
        );
        if added {
            proof {
                self.depths@ = self.depths@.push(depth + 1);
                assert(self.results@.last() == self.results@[before.len() as int]);
                assert forall|k: int| 0 <= k < self.results@.len() implies valid_result(
                    #[trigger] self.results@[k],
                    self.depths@[k],
                    self.query@,
                    self.filter,
                ) by {
                    if k < before.len() {
                        assert(self.results@[k] == before[k]);
                    } else {
                        assert(self.results@[k].name@ == hit_name);
                        assert(self.results@[k].kind == kind_of(is_dir));
                    }
                }
            }
            true
        } else {
            self.truncated = true;
            false
        }
    }

    /// Whether the search stopped with its results full.
    pub fn stopped(&self) -> (r: bool)
        ensures
            r == self.is_truncated(),
    {
        self.truncated
    }

    /// The results in order of relative path: each a hit for the query and
    /// the filter within the depth limit, at most
    /// `MAX_DIRECTORY_SEARCH_RESULTS` of them, and cut only when full.
    pub fn finish(self) -> (r: DirectorySearch)
        requires
            self.wf(),
        ensures
            sorted_by_key(r.entries@),
            r.entries@.to_multiset() == self.results().to_multiset(),
            r.entries@.len() <= MAX_DIRECTORY_SEARCH_RESULTS,
            r.truncated == self.is_truncated(),
            r.truncated ==> r.entries@.len() == MAX_DIRECTORY_SEARCH_RESULTS,
            forall|e: DirectorySearchEntry|
                #[trigger] r.entries@.contains(e) ==> exists|k: int|
                    0 <= k < self.results().len() && #[trigger] self.results()[k] == e
                        && valid_result(e, self.depths()[k], self.query(), self.filter()),
    {
        let ghost results = self.results@;
        let r = finish_search(self.results, self.truncated);
        proof {
            results.to_multiset_ensures();
            r.entries@.to_multiset_ensures();
            assert forall|e: DirectorySearchEntry| #[trigger] r.entries@.contains(e) implies exists|k: int|
                0 <= k < self.results().len() && #[trigger] self.results()[k] == e && valid_result(
                    e,
                    self.depths()[k],
                    self.query(),
                    self.filter(),
                ) by {
                assert(r.entries@.to_multiset().count(e) > 0);
                assert(results.contains(e));
                let k = choose|k: int| 0 <= k < results.len() && results[k] == e;
                assert(valid_result(results[k], self.depths@[k], self.query@, self.filter));
                assert(self.results()[k] == e);
            }
        }
        r
    }
}

/// The results of a search in order of relative path.
pub fn finish_search(entries: Vec<DirectorySearchEntry>, truncated: bool) -> (r: DirectorySearch)
    ensures
        sorted_by_key(r.entries@),
        r.entries@.to_multiset() == entries@.to_multiset(),
        r.truncated == truncated,
{
    DirectorySearch { entries: sort_by_key(entries), truncated }
}

/// One entry a copy will create, below the copied directory.
#[derive(Debug)]
pub struct CopyPlanEntry {
    pub relative_path: String,
    pub is_dir: bool,
    pub size: u64,
}

/// What a copy will create, counted against its limits.
#[derive(Debug)]
pub struct CopyPlan {
    pub entries: Vec<CopyPlanEntry>,
    pub copied_entries: usize,
    pub copied_bytes: u64,
}

/// The bytes of the files among `entries`.
pub open spec fn bytes_of(entries: Seq<CopyPlanEntry>) -> int
    decreases entries.len(),
{
    if entries.len() == 0 {
        0
    } else {
        bytes_of(entries.drop_last()) + entries.last().size
    }
}

impl CopyPlan {
    /// A plan for a directory: it copies the directory and its entries, and
    /// counts the bytes of the files among them.
    pub open spec fn counts_entries(&self) -> bool {
        self.copied_bytes == bytes_of(self.entries@)
    }

    /// Within the limits: at most 100 entries and 16 MiB, the copied entry
    /// itself counted.
    pub open spec fn wf(&self) -> bool {
        &&& self.copied_entries <= MAX_COPY_ENTRIES
        &&& self.copied_bytes <= MAX_COPY_BYTES
        &&& self.copied_entries == self.entries@.len() + 1
    }

    /// The plan to copy one file of `len` bytes.
    pub fn for_file(len: u64) -> (r: Result<CopyPlan, FileError>)
        ensures
            r is Ok <==> len <= MAX_COPY_BYTES,
            r matches Ok(plan) ==> plan.wf() && plan.entries@.len() == 0 && plan.copied_entries
                == 1 && plan.copied_bytes == len,
            r is Err ==> r == Err::<CopyPlan, FileError>(FileError::CopyLimitExceeded),
    {
        if len > MAX_COPY_BYTES {
            return Err(FileError::CopyLimitExceeded);
        }
        let plan = CopyPlan { entries: Vec::new(), copied_entries: 1, copied_bytes: len };
        assert(plan.entries@ =~= Seq::<CopyPlanEntry>::empty());
        Ok(plan)
    }

    /// The plan to copy a directory, before its children are seen.
    pub fn for_directory() -> (r: CopyPlan)
        ensures
            r.wf(),
            r.entries@.len() == 0,
            r.copied_entries == 1,
            r.copied_bytes == 0,
            r.counts_entries(),
    {
        let r = CopyPlan { entries: Vec::new(), copied_entries: 1, copied_bytes: 0 };
        assert(r.entries@ =~= Seq::<CopyPlanEntry>::empty());
        r
    }

    /// A child at `child_depth` below the copied directory is within the
    /// depth limit.
    pub fn check_depth(child_depth: usize) -> (r: Result<(), FileError>)
        ensures
            r is Ok <==> child_depth <= MAX_COPY_DEPTH,
            r is Err ==> r == Err::<(), FileError>(FileError::CopyLimitExceeded),
    {
        if child_depth > MAX_COPY_DEPTH {
            Err(FileError::CopyLimitExceeded)
        } else {
            Ok(())
        }
    }

    /// Adds a child of the directory at `relative_directory` to the plan.
    /// Symbolic links and special files cannot be copied; the plan must
    /// stay within its limits. Returns whether the child is a directory to
    /// walk into.
    pub fn add_child(&mut self, relative_directory: &str, name: &str, kind: FsKind, len: u64) -> (r:
        Result<bool, FileError>)
        requires
            old(self).wf(),
        ensures
            kind == FsKind::Symlink ==> r == Err::<bool, FileError>(FileError::Symlink),
            kind == FsKind::Other ==> r == Err::<bool, FileError>(FileError::EntryUnsupported),
            (kind == FsKind::Directory || kind == FsKind::File) ==> ({
                let size: int = if kind == FsKind::File {
                    len as int
                } else {
                    0
                };
                let fits = old(self).copied_entries + 1 <= MAX_COPY_ENTRIES
                    && old(self).copied_bytes + size <= MAX_COPY_BYTES;
                &&& r is Ok <==> fits
                &&& r is Err ==> r == Err::<bool, FileError>(FileError::CopyLimitExceeded)
                &&& r matches Ok(descend) ==> {
                    &&& descend == (kind == FsKind::Directory)
                    &&& final(self).wf()
                    &&& final(self).entries@.len() == old(self).entries@.len() + 1
                    &&& forall|i: int|
                        0 <= i < old(self).entries@.len() ==> #[trigger] final(self).entries@[i]
                            == old(self).entries@[i]
                    &&& final(self).entries@.last().relative_path@ == child_relative_path(
                        relative_directory@,
                        name@,
                    )
                    &&& final(self).entries@.last().is_dir == (kind == FsKind::Directory)
                    &&& final(self).entries@.last().size == size
                    &&& final(self).copied_entries == old(self).copied_entries + 1
                    &&& final(self).copied_bytes == old(self).copied_bytes + size
                    &&& old(self).counts_entries() ==> final(self).counts_entries()
                }
            }),
            r is Err ==> *final(self) == *old(self),
    {
        let (is_dir, size) = match kind {
            FsKind::Symlink => return Err(FileError::Symlink),
            FsKind::Other => return Err(FileError::EntryUnsupported),
            FsKind::Directory => (true, 0u64),
            FsKind::File => (false, len),
        };
        let copied_bytes = match self.copied_bytes.checked_add(size) {
            Some(total) => total,
            None => return Err(FileError::CopyLimitExceeded),
        };
        let copied_entries = self.copied_entries + 1;
        if copied_entries > MAX_COPY_ENTRIES || copied_bytes > MAX_COPY_BYTES {
            return Err(FileError::CopyLimitExceeded);
        }
        let relative_path = child_relative_path_of(relative_directory, name);
        let ghost before = self.entries@;
        self.entries.push(CopyPlanEntry { relative_path, is_dir, size });
        assert(self.entries@.drop_last() =~= before);
        assert(bytes_of(self.entries@) == bytes_of(before) + size);
        self.copied_entries = copied_entries;
        self.copied_bytes = copied_bytes;
        Ok(is_dir)
    }
}

/// Whether `parent`, a directory shown relative to the copied directory, is
/// the copied directory itself (`""`) or one of the first `before`
/// entries of the plan, a directory.
pub open spec fn parent_listed(entries: Seq<CopyPlanEntry>, parent: Seq<char>, before: int) -> bool {
    parent.len() == 0 || exists|j: int|
        0 <= j < before && entries[j].is_dir && #[trigger] entries[j].relative_path@ == parent
}

/// The plan of a directory copy as it is walked, breadth first: each entry
/// is a child of the copied directory or of an earlier directory entry.
pub struct CopyWalk {
    plan: CopyPlan,
    pending: Vec<(Vec<PathPart>, String, usize)>,
    current: Option<(String, usize)>,
    parents: Ghost<Seq<Seq<char>>>,
    names: Ghost<Seq<Seq<char>>>,
}

impl CopyWalk {
    /// The plan so far.
    pub closed spec fn plan(&self) -> CopyPlan {
        self.plan
    }

    /// The directory, shown relative to the copied one, that each entry of
    /// the plan was met in.
    pub closed spec fn parents(&self) -> Seq<Seq<char>> {
        self.parents@
    }

    /// The name of each entry of the plan.
    pub closed spec fn names(&self) -> Seq<Seq<char>> {
        self.names@
    }

    /// How many levels below the copied directory the current one lies.
    pub closed spec fn current_depth(&self) -> int {
        self.current->Some_0.1 as int
    }

    /// Whether a directory is being read.
    pub closed spec fn reading(&self) -> bool {
        self.current is Some
    }

    /// Within the limits, the bytes counted, and each entry a child of the
    /// copied directory or of an earlier directory entry; every directory
    /// still to read is one of them.
    pub closed spec fn wf(&self) -> bool {
        &&& self.plan.wf()
        &&& self.plan.counts_entries()
        &&& self.parents@.len() == self.plan.entries@.len()
        &&& self.names@.len() == self.plan.entries@.len()
        &&& forall|k: int|
            0 <= k < self.plan.entries@.len() ==> {
                &&& (#[trigger] self.plan.entries@[k]).relative_path@ == child_relative_path(
                    self.parents@[k],
                    self.names@[k],
                )
                &&& parent_listed(self.plan.entries@, self.parents@[k], k)
            }
        &&& forall|q: int|
            0 <= q < self.pending@.len() ==> parent_listed(
                self.plan.entries@,
                (#[trigger] self.pending@[q]).1@,
                self.plan.entries@.len() as int,
            )
        &&& self.current matches Some(c) ==> parent_listed(
            self.plan.entries@,
            c.0@,
            self.plan.entries@.len() as int,
        )
    }

    /// The walk of the directory at `source`, with nothing planned below it
    /// yet.
    pub fn for_directory(source: Vec<PathPart>) -> (r: Self)
        ensures
            r.wf(),
            r.plan().entries@.len() == 0,
            r.plan().copied_entries == 1,
            r.plan().copied_bytes == 0,
    {
        let mut pending: Vec<(Vec<PathPart>, String, usize)> = Vec::new();
        pending.push((source, String::new(), 0));
        let r = CopyWalk {
            plan: CopyPlan::for_directory(),
            pending,
            current: None,
            parents: Ghost(Seq::empty()),
            names: Ghost(Seq::empty()),
        };
        assert(r.pending@[0].1@.len() == 0);
        r
    }

    /// An entry list that grows keeps every earlier parent listed.
    proof fn lemma_parent_listed_grows(
        entries: Seq<CopyPlanEntry>,
        more: Seq<CopyPlanEntry>,
        parent: Seq<char>,
        before: int,
    )
        requires
            parent_listed(entries, parent, before),
            0 <= before <= entries.len() <= more.len(),
            forall|i: int| 0 <= i < entries.len() ==> #[trigger] more[i] == entries[i],
        ensures
            parent_listed(more, parent, before),
    {
        if parent.len() > 0 {
            let j = choose|j: int|
                0 <= j < before && entries[j].is_dir && #[trigger] entries[j].relative_path@ == parent;
            assert(more[j] == entries[j]);
        }
    }

    /// The path of the next directory to read, which becomes the current
    /// one; none once every directory was read.
    pub fn next_directory(&mut self) -> (r: Option<Vec<PathPart>>)
        requires
            old(self).wf(),
        ensures
            final(self).wf(),
            final(self).plan() == old(self).plan(),
            final(self).parents() == old(self).parents(),
            final(self).names() == old(self).names(),
            r is Some <==> final(self).reading(),
    {
        if self.pending.len() == 0 {
            self.current = None;
            return None;
        }
        let ghost before = self.pending@;
        let (path, relative, depth) = self.pending.remove(0);
        assert((path, relative, depth) == before[0]);
        assert forall|q: int| 0 <= q < self.pending@.len() implies parent_listed(
            self.plan.entries@,
            (#[trigger] self.pending@[q]).1@,
            self.plan.entries@.len() as int,
        ) by {
            assert(self.pending@[q] == before[q + 1]);
        }
        self.current = Some((relative, depth));
        Some(path)
    }

    /// A child of the current directory is within the depth limit.
    pub fn check_child_depth(&self) -> (r: Result<(), FileError>)
        requires
            self.reading(),
        ensures
            r is Ok <==> self.current_depth() + 1 <= MAX_COPY_DEPTH,
            r is Err ==> r == Err::<(), FileError>(FileError::CopyLimitExceeded),
    {
        match &self.current {
            Some((_, depth)) => {
                if *depth >= MAX_COPY_DEPTH {
                    Err(FileError::CopyLimitExceeded)
                } else {
                    Ok(())
                }
            },
            None => Ok(()),
        }
    }

    /// Adds a child of the current directory to the plan, within the depth
    /// and plan limits; a directory is queued to be read in turn. Symbolic
    /// links and special files cannot be copied.
    pub fn add_child(&mut self, child_path: Vec<PathPart>, name: &str, kind: FsKind, len: u64) -> (r:
        Result<(), FileError>)
        requires
            old(self).wf(),
            old(self).reading(),
        ensures
            final(self).wf(),
            final(self).reading(),
            r is Ok ==> final(self).plan().entries@.len() == old(self).plan().entries@.len() + 1
                && final(self).names().last() == name@,
            r is Err ==> final(self).plan() == old(self).plan(),
            kind == FsKind::Symlink && old(self).current_depth() < MAX_COPY_DEPTH ==> r
                == Err::<(), FileError>(FileError::Symlink),
            kind == FsKind::Other && old(self).current_depth() < MAX_COPY_DEPTH ==> r
                == Err::<(), FileError>(FileError::EntryUnsupported),
            old(self).current_depth() >= MAX_COPY_DEPTH ==> r == Err::<(), FileError>(
                FileError::CopyLimitExceeded,
            ),
    {
        let (relative, depth) = match &self.current {
            Some((relative, depth)) => (relative.clone(), *depth),
            None => {
                return Ok(());
            },
        };
        if depth >= MAX_COPY_DEPTH {
            return Err(FileError::CopyLimitExceeded);
        }
        let ghost entries_before = self.plan.entries@;
        let descend = match self.plan.add_child(relative.as_str(), name, kind, len) {
            Ok(descend) => descend,
            Err(e) => {
                return Err(e);
            },
        };
        let ghost entries_now = self.plan.entries@;
        let ghost n = entries_before.len();
        proof {
            self.parents@ = self.parents@.push(relative@);
            self.names@ = self.names@.push(name@);
            assert(parent_listed(entries_before, relative@, n as int));
            CopyWalk::lemma_parent_listed_grows(entries_before, entries_now, relative@, n as int);
            assert forall|k: int| 0 <= k < entries_now.len() implies {
                &&& (#[trigger] entries_now[k]).relative_path@ == child_relative_path(
                    self.parents@[k],
                    self.names@[k],
                )
                &&& parent_listed(entries_now, self.parents@[k], k)
            } by {
                if k < n {
                    assert(entries_now[k] == entries_before[k]);
                    CopyWalk::lemma_parent_listed_grows(entries_before, entries_now, self.parents@[k], k);
                }
            }
            assert forall|q: int| 0 <= q < self.pending@.len() implies parent_listed(
                entries_now,
                (#[trigger] self.pending@[q]).1@,
                entries_now.len() as int,
            ) by {
                CopyWalk::lemma_parent_listed_grows(entries_before, entries_now, self.pending@[q].1@, n as int);
                if self.pending@[q].1@.len() > 0 {
                    let j = choose|j: int|
                        0 <= j < n && entries_now[j].is_dir && #[trigger] entries_now[j].relative_path@
                            == self.pending@[q].1@;
                }
            }
            assert(parent_listed(entries_now, relative@, entries_now.len() as int)) by {
                if relative@.len() > 0 {
                    let j = choose|j: int|
                        0 <= j < n && entries_now[j].is_dir && #[trigger] entries_now[j].relative_path@
                            == relative@;
                }
            }
        }
        if descend {
            let shown = child_relative_path_of(relative.as_str(), name);
            let ghost before = self.pending@;
            self.pending.push((child_path, shown, depth + 1));
            proof {
                assert(entries_now[n as int].relative_path@ == shown@);
                assert(entries_now[n as int].is_dir);
                assert forall|q: int| 0 <= q < self.pending@.len() implies parent_listed(
                    entries_now,
                    (#[trigger] self.pending@[q]).1@,
                    entries_now.len() as int,
                ) by {
                    if q < before.len() {
                        assert(self.pending@[q] == before[q]);
                    } else {
                        assert(self.pending@[q].1@ == shown@);
                    }
                }
            }
        }
        Ok(())
    }

    /// The finished plan: within the limits, the bytes of its files
    /// counted, and each entry a child of the copied directory or of an
    /// earlier directory entry.
    pub fn finish(self) -> (r: CopyPlan)
        requires
            self.wf(),
        ensures
            r == self.plan(),
            r.wf(),
            r.counts_entries(),
            forall|k: int|
                0 <= k < r.entries@.len() ==> {
                    &&& (#[trigger] r.entries@[k]).relative_path@ == child_relative_path(
                        self.parents()[k],
                        self.names()[k],
                    )
                    &&& parent_listed(r.entries@, self.parents()[k], k)
                },
    {
        self.plan
    }
}

} // verus!
