//! Reading, editing and listing files inside the workspace root: what the
//! workspace commands compute once the path was resolved inside the root.

use vstd::prelude::*;

use vstd::utf8::{decode_utf8, valid_utf8};

use crate::files::walk::{sort_by_key, sorted_by_key, SortKey};
use crate::paths::{
    join_normal_names, join_with_slash, normal_names, parts_prefix, parts_start_with, parts_view,
    PartView, PathPart,
};
use crate::text::{chars_of, str_eq, string_from_chars};

verus! {

/// Whether `pat` occurs in `s` at index `i`.
pub open spec fn matches_at(s: Seq<char>, pat: Seq<char>, i: int) -> bool {
    0 <= i && i + pat.len() <= s.len() && s.subrange(i, i + pat.len()) == pat
}

/// `s` with its first occurrence of `pat` replaced by `rep`
/// (`str::replacen(pat, rep, 1)`); an empty pattern occurs at the start.
pub open spec fn replaced_first(s: Seq<char>, pat: Seq<char>, rep: Seq<char>) -> Seq<char>
    decreases s.len(),
{
    if matches_at(s, pat, 0) {
        rep + s.skip(pat.len() as int)
    } else if s.len() == 0 {
        s
    } else {
        seq![s[0]] + replaced_first(s.drop_first(), pat, rep)
    }
}

/// `s` with every occurrence of `pat` replaced by `rep`, scanning from the
/// left without overlaps (`str::replace`); an empty pattern occurs before
/// every character and at the end.
pub open spec fn replaced_all(s: Seq<char>, pat: Seq<char>, rep: Seq<char>) -> Seq<char>
    decreases s.len(),
{
    if pat.len() == 0 {
        if s.len() == 0 {
            rep
        } else {
            rep + seq![s[0]] + replaced_all(s.drop_first(), pat, rep)
        }
    } else if matches_at(s, pat, 0) {
        rep + replaced_all(s.skip(pat.len() as int), pat, rep)
    } else if s.len() == 0 {
        s
    } else {
        seq![s[0]] + replaced_all(s.drop_first(), pat, rep)
    }
}

/// The text after an edit: every occurrence replaced, or the first one.
pub open spec fn edited(s: Seq<char>, search: Seq<char>, replace: Seq<char>, all: bool) -> Seq<
    char,
> {
    if all {
        replaced_all(s, search, replace)
    } else {
        replaced_first(s, search, replace)
    }
}

proof fn lemma_skip_step(s: Seq<char>, i: int)
    requires
        0 <= i < s.len(),
    ensures
        s.skip(i).drop_first() == s.skip(i + 1),
        s.skip(i)[0] == s[i],
        s.skip(i).len() > 0,
{
    assert(s.skip(i).drop_first() =~= s.skip(i + 1));
}

proof fn lemma_matches_skip(s: Seq<char>, pat: Seq<char>, i: int)
    requires
        0 <= i <= s.len(),
    ensures
        matches_at(s.skip(i), pat, 0) == matches_at(s, pat, i),
        matches_at(s, pat, i) ==> s.skip(i).skip(pat.len() as int) == s.skip(i + pat.len()),
{
    if i + pat.len() <= s.len() {
        assert(s.skip(i).subrange(0, pat.len() as int) =~= s.subrange(i, i + pat.len()));
        assert(s.skip(i).skip(pat.len() as int) =~= s.skip(i + pat.len()));
    }
}

/// Whether `pat` occurs in `s` at index `i`.
fn chars_match_at(s: &Vec<char>, pat: &Vec<char>, i: usize) -> (r: bool)
    requires
        i <= s@.len(),
    ensures
        r == matches_at(s@, pat@, i as int),
{
    if pat.len() > s.len() - i {
        return false;
    }
    let mut j: usize = 0;
    while j < pat.len()
        invariant
            i + pat@.len() <= s@.len(),
            s@.len() <= usize::MAX,
            j <= pat@.len(),
            forall|k: int| 0 <= k < j ==> s@[i + k] == pat@[k],
        decreases pat@.len() - j,
    {
        if s[i + j] != pat[j] {
            assert(s@.subrange(i as int, i + pat@.len())[j as int] != pat@[j as int]);
            return false;
        }
        j = j + 1;
    }
    assert(s@.subrange(i as int, i + pat@.len()) =~= pat@);
    true
}

/// Appends `src[from..to]` to `out`.
fn push_range(out: &mut Vec<char>, src: &Vec<char>, from: usize, to: usize)
    requires
        from <= to <= src@.len(),
    ensures
        final(out)@ == old(out)@ + src@.subrange(from as int, to as int),
{
    let mut k: usize = from;
    while k < to
        invariant
            from <= k <= to <= src@.len(),
            out@ == old(out)@ + src@.subrange(from as int, k as int),
        decreases to - k,
    {
        out.push(src[k]);
        assert(src@.subrange(from as int, k + 1) =~= src@.subrange(from as int, k as int).push(
            src@[k as int],
        ));
        k = k + 1;
    }
}

/// Replaces the first occurrence of `pat` in `s` by `rep`.
fn replace_first_chars(s: &Vec<char>, pat: &Vec<char>, rep: &Vec<char>) -> (r: Vec<char>)
    ensures
        r@ == replaced_first(s@, pat@, rep@),
{
    let n = s.len();
    let mut i: usize = 0;
    assert(s@.skip(0) =~= s@);
    while i < n
        invariant
            n == s@.len(),
            i <= n,
            replaced_first(s@, pat@, rep@) == s@.take(i as int) + replaced_first(
                s@.skip(i as int),
                pat@,
                rep@,
            ),
        decreases n - i,
    {
        proof {
            lemma_matches_skip(s@, pat@, i as int);
        }
        if chars_match_at(s, pat, i) {
            let mut out: Vec<char> = Vec::new();
            push_range(&mut out, s, 0, i);
            push_range(&mut out, rep, 0, rep.len());
            push_range(&mut out, s, i + pat.len(), n);
            assert(s@.subrange(0, i as int) =~= s@.take(i as int));
            assert(rep@.subrange(0, rep@.len() as int) =~= rep@);
            assert(s@.subrange(i + pat@.len(), n as int) =~= s@.skip(i + pat@.len()));
            assert(out@ =~= s@.take(i as int) + (rep@ + s@.skip(i as int).skip(pat@.len() as int)));
            return out;
        }
        proof {
            lemma_skip_step(s@, i as int);
            assert(s@.take(i as int) + seq![s@[i as int]] =~= s@.take(i + 1));
            assert(s@.take(i as int) + (seq![s@[i as int]] + replaced_first(
                s@.skip(i + 1),
                pat@,
                rep@,
            )) =~= s@.take(i + 1) + replaced_first(s@.skip(i + 1), pat@, rep@));
        }
        i = i + 1;
    }
    proof {
        lemma_matches_skip(s@, pat@, n as int);
        assert(s@.skip(n as int) =~= Seq::<char>::empty());
        assert(s@.take(n as int) =~= s@);
    }
    if chars_match_at(s, pat, n) {
        let mut out: Vec<char> = Vec::new();
        push_range(&mut out, s, 0, n);
        push_range(&mut out, rep, 0, rep.len());
        assert(s@.subrange(0, n as int) =~= s@);
        assert(rep@.subrange(0, rep@.len() as int) =~= rep@);
        assert(s@.skip(n as int).skip(pat@.len() as int) =~= Seq::<char>::empty());
        assert(out@ =~= s@ + (rep@ + Seq::<char>::empty()));
        return out;
    }
    let mut out: Vec<char> = Vec::new();
    push_range(&mut out, s, 0, n);
    assert(s@.subrange(0, n as int) =~= s@);
    assert(out@ =~= s@ + Seq::<char>::empty());
    out
}

/// Replaces every occurrence of `pat` in `s` by `rep`.
fn replace_all_chars(s: &Vec<char>, pat: &Vec<char>, rep: &Vec<char>) -> (r: Vec<char>)
    ensures
        r@ == replaced_all(s@, pat@, rep@),
{
    let n = s.len();
    let mut out: Vec<char> = Vec::new();
    let mut i: usize = 0;
    assert(s@.skip(0) =~= s@);
    assert(rep@.subrange(0, rep@.len() as int) =~= rep@);
    if pat.len() == 0 {
        while i < n
            invariant
                n == s@.len(),
                i <= n,
                pat@.len() == 0,
                rep@.subrange(0, rep@.len() as int) == rep@,
                replaced_all(s@, pat@, rep@) == out@ + replaced_all(s@.skip(i as int), pat@, rep@),
            decreases n - i,
        {
            proof {
                lemma_skip_step(s@, i as int);
            }
            let ghost before = out@;
            push_range(&mut out, rep, 0, rep.len());
            out.push(s[i]);
            assert(out@ =~= before + (rep@ + seq![s@[i as int]]));
            assert(before + (rep@ + seq![s@[i as int]] + replaced_all(s@.skip(i + 1), pat@, rep@))
                =~= out@ + replaced_all(s@.skip(i + 1), pat@, rep@));
            i = i + 1;
        }
        assert(s@.skip(n as int) =~= Seq::<char>::empty());
        push_range(&mut out, rep, 0, rep.len());
        return out;
    }
    while i < n
        invariant
            n == s@.len(),
            i <= n,
            pat@.len() > 0,
            rep@.subrange(0, rep@.len() as int) == rep@,
            replaced_all(s@, pat@, rep@) == out@ + replaced_all(s@.skip(i as int), pat@, rep@),
        decreases n - i,
    {
        proof {
            lemma_matches_skip(s@, pat@, i as int);
            lemma_skip_step(s@, i as int);
        }
        let ghost before = out@;
        if chars_match_at(s, pat, i) {
            push_range(&mut out, rep, 0, rep.len());
            assert(before + (rep@ + replaced_all(s@.skip(i + pat@.len()), pat@, rep@)) =~= out@
                + replaced_all(s@.skip(i + pat@.len()), pat@, rep@));
            i = i + pat.len();
        } else {
            out.push(s[i]);
            assert(before + (seq![s@[i as int]] + replaced_all(s@.skip(i + 1), pat@, rep@))
                =~= out@ + replaced_all(s@.skip(i + 1), pat@, rep@));
            i = i + 1;
        }
    }
    proof {
        assert(s@.skip(n as int) =~= Seq::<char>::empty());
        assert(!matches_at(Seq::<char>::empty(), pat@, 0));
        assert(out@ + Seq::<char>::empty() =~= out@);
    }
    out
}

/// The text after replacing `search` by `replace` (every occurrence when
/// `all`, else the first), or `None` when that changes nothing, which the
/// workspace edit refuses as "search string not found".
pub fn apply_edit(original: &str, search: &str, replace: &str, all: bool) -> (r: Option<String>)
    ensures
        r is None <==> edited(original@, search@, replace@, all) == original@,
        r matches Some(text) ==> text@ == edited(original@, search@, replace@, all),
{
    let s = chars_of(original);
    let pat = chars_of(search);
    let rep = chars_of(replace);
    let out = if all {
        replace_all_chars(&s, &pat, &rep)
    } else {
        replace_first_chars(&s, &pat, &rep)
    };
    let text = string_from_chars(out.as_slice());
    if str_eq(text.as_str(), original) {
        None
    } else {
        Some(text)
    }
}

/// At most this many bytes of a file are shown when it is read.
pub const READ_TRUNCATE_BYTES: usize = 200_000;

/// A file of the workspace as it is shown: its text, whether it was cut
/// short, and its size in bytes.
#[derive(Debug)]
pub struct FsReadResult {
    pub content: String,
    pub truncated: bool,
    pub original_size: usize,
}

/// What `String::from_utf8_lossy` makes of the bytes.
pub uninterp spec fn lossy_text_of(bytes: Seq<u8>) -> Seq<char>;

/// `String::from_utf8_lossy`: the text that the bytes encode, each invalid
/// sequence replaced by U+FFFD; valid UTF-8 decodes unchanged. What the
/// replacement gives on invalid input is left to `lossy_text_of`.
#[verifier::external_body]
fn lossy_text(bytes: &[u8]) -> (r: String)
    ensures
        r@ == lossy_text_of(bytes@),
        valid_utf8(bytes@) ==> r@ == decode_utf8(bytes@),
{
    String::from_utf8_lossy(bytes).into_owned()
}

/// The bytes that are shown of a file: the first `READ_TRUNCATE_BYTES` of a
/// larger one, all of a smaller one.
pub open spec fn shown_bytes(bytes: Seq<u8>) -> Seq<u8> {
    if bytes.len() > READ_TRUNCATE_BYTES {
        bytes.take(READ_TRUNCATE_BYTES as int)
    } else {
        bytes
    }
}

/// How the bytes of a workspace file are shown.
pub fn read_result(bytes: &[u8]) -> (r: FsReadResult)
    ensures
        r.original_size == bytes@.len(),
        r.truncated == (bytes@.len() > READ_TRUNCATE_BYTES),
        r.content@ == lossy_text_of(shown_bytes(bytes@)),
        valid_utf8(shown_bytes(bytes@)) ==> r.content@ == decode_utf8(shown_bytes(bytes@)),
{
    let original_size = bytes.len();
    if original_size > READ_TRUNCATE_BYTES {
        let mut head: Vec<u8> = Vec::new();
        let mut i: usize = 0;
        while i < READ_TRUNCATE_BYTES
            invariant
                i <= READ_TRUNCATE_BYTES < bytes@.len(),
                head@ == bytes@.take(i as int),
            decreases READ_TRUNCATE_BYTES - i,
        {
            head.push(bytes[i]);
            assert(bytes@.take(i + 1) =~= bytes@.take(i as int).push(bytes@[i as int]));
            i = i + 1;
        }
        let content = lossy_text(head.as_slice());
        FsReadResult { content, truncated: true, original_size }
    } else {
        let content = lossy_text(bytes);
        FsReadResult { content, truncated: false, original_size }
    }
}

/// An entry of a workspace directory, with its path relative to the root.
#[derive(Debug)]
pub struct DirEntry {
    pub name: String,
    pub path: String,
    pub is_dir: bool,
    pub is_file: bool,
    pub size: Option<u64>,
}

impl SortKey for DirEntry {
    open spec fn key(&self) -> Seq<char> {
        self.name@
    }

    fn sort_key(&self) -> (r: &str) {
        self.name.as_str()
    }
}

impl SortKey for String {
    open spec fn key(&self) -> Seq<char> {
        self@
    }

    fn sort_key(&self) -> (r: &str) {
        self.as_str()
    }
}

/// `path` shown relative to `root` (the normal components after the root,
/// joined by `/`), if `path` lies inside `root`.
pub open spec fn relative_display(path: Seq<PartView>, root: Seq<PartView>) -> Option<Seq<char>> {
    if parts_start_with(path, root) {
        Some(join_with_slash(normal_names(path.skip(root.len() as int))))
    } else {
        None
    }
}

/// Shows a canonical `path` relative to the canonical `root`, if it lies
/// inside it.
pub fn relative_to_root(path: &[PathPart], root: &[PathPart]) -> (r: Option<String>)
    ensures
        r is Some <==> relative_display(parts_view(path@), parts_view(root@)) is Some,
        r matches Some(shown) ==> relative_display(parts_view(path@), parts_view(root@))
            == Some(shown@),
{
    if !parts_prefix(path, root) {
        return None;
    }
    let mut rest: Vec<PathPart> = Vec::new();
    let mut i: usize = root.len();
    while i < path.len()
        invariant
            root@.len() <= i <= path@.len(),
            parts_view(rest@) == parts_view(path@).subrange(root@.len() as int, i as int),
        decreases path@.len() - i,
    {
        let part = match &path[i] {
            PathPart::RootDir => PathPart::RootDir,
            PathPart::CurDir => PathPart::CurDir,
            PathPart::ParentDir => PathPart::ParentDir,
            PathPart::Normal(name) => PathPart::Normal(name.clone()),
        };
        let ghost pv = part@;
        let ghost before = parts_view(rest@);
        rest.push(part);
        assert(parts_view(rest@) =~= before.push(pv));
        assert(parts_view(path@).subrange(root@.len() as int, i + 1) =~= parts_view(
            path@,
        ).subrange(root@.len() as int, i as int).push(pv));
        i = i + 1;
    }
    assert(parts_view(path@).subrange(root@.len() as int, path@.len() as int) =~= parts_view(
        path@,
    ).skip(root@.len() as int));
    Some(join_normal_names(rest.as_slice()).0)
}

/// The path of a listed entry as shown: relative to the root, or its bare
/// name when it does not lie inside the root.
pub fn listed_path(path: &[PathPart], root: &[PathPart], name: String) -> (r: String)
    ensures
        r@ == match relative_display(parts_view(path@), parts_view(root@)) {
            Some(shown) => shown,
            None => name@,
        },
{
    match relative_to_root(path, root) {
        Some(shown) => shown,
        None => name,
    }
}

/// A directory listing in the order of the entries' names.
pub fn sort_dir_entries(entries: Vec<DirEntry>) -> (r: Vec<DirEntry>)
    ensures
        sorted_by_key(r@),
        r@.to_multiset() == entries@.to_multiset(),
{
    sort_by_key(entries)
}

/// `shown` holds the shown paths of the matches inside `root`, in the
/// order matched.
pub open spec fn collected_matches(
    shown: Seq<String>,
    matches: Seq<Vec<PathPart>>,
    root: Seq<PathPart>,
) -> bool {
    shown.map_values(|s: String| s@) == glob_shown(
        matches.map_values(|m: Vec<PathPart>| parts_view(m@)),
        parts_view(root),
    )
}

/// The workspace paths that a glob pattern matched, in order: each match
/// that resolves inside the root, shown relative to it; the others are left
/// out.
pub fn glob_results(matches: &Vec<Vec<PathPart>>, root: &[PathPart]) -> (r: Vec<String>)
    ensures
        sorted_by_key(r@),
        exists|shown: Seq<String>|
            #[trigger] collected_matches(shown, matches@, root@) && r@.to_multiset()
                == shown.to_multiset(),
{
    let ghost all = matches@.map_values(|m: Vec<PathPart>| parts_view(m@));
    let ghost rootv = parts_view(root@);
    let mut shown: Vec<String> = Vec::new();
    let mut i: usize = 0;
    while i < matches.len()
        invariant
            i <= matches@.len(),
            all == matches@.map_values(|m: Vec<PathPart>| parts_view(m@)),
            rootv == parts_view(root@),
            shown@.map_values(|s: String| s@) == glob_shown(all.take(i as int), rootv),
        decreases matches@.len() - i,
    {
        assert(all.take(i + 1).drop_last() =~= all.take(i as int));
        assert(all.take(i + 1).last() == parts_view(matches@[i as int]@));
        let ghost before = shown@;
        match relative_to_root(matches[i].as_slice(), root) {
            Some(s) => {
                shown.push(s);
                assert(shown@.map_values(|s: String| s@) =~= before.map_values(|s: String| s@).push(
                    shown@.last()@,
                ));
            },
            None => {},
        }
        i = i + 1;
    }
    assert(all.take(matches@.len() as int) =~= all);
    let ghost collected = shown@;
    let r = sort_by_key(shown);
    assert(collected_matches(collected, matches@, root@));
    r
}

/// The shown paths of the matches inside `root`, in the order matched.
pub open spec fn glob_shown(matches: Seq<Seq<PartView>>, root: Seq<PartView>) -> Seq<Seq<char>>
    decreases matches.len(),
{
    if matches.len() == 0 {
        Seq::empty()
    } else {
        let prev = glob_shown(matches.drop_last(), root);
        match relative_display(matches.last(), root) {
            Some(shown) => prev.push(shown),
            None => prev,
        }
    }
}

} // verus!
