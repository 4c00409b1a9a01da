//! Unix paths as sequences of components, with the rules `std::path` uses to
//! split a path string: `/` separates, empty and `.` segments vanish, a
//! leading `/` is the root and a leading `.` segment is the current directory.

use vstd::prelude::*;

use crate::text::{chars_of, string_from_chars, str_eq, push_char};

verus! {

/// One component of a path.
#[derive(Debug, Clone, PartialEq, Eq)]
pub enum PathPart {
    RootDir,
    CurDir,
    ParentDir,
    Normal(String),
}

/// The mathematical value of a path component.
pub enum PartView {
    Root,
    Cur,
    Parent,
    Normal(Seq<char>),
}

impl View for PathPart {
    type V = PartView;

    open spec fn view(&self) -> PartView {
        match self {
            PathPart::RootDir => PartView::Root,
            PathPart::CurDir => PartView::Cur,
            PathPart::ParentDir => PartView::Parent,
            PathPart::Normal(name) => PartView::Normal(name@),
        }
    }
}

pub open spec fn parts_view(parts: Seq<PathPart>) -> Seq<PartView> {
    parts.map_values(|p: PathPart| p@)
}

/// The segments of `s` between slashes, empty ones included.
pub open spec fn split_slash(s: Seq<char>) -> Seq<Seq<char>>
    decreases s.len(),
{
    if s.len() == 0 {
        seq![Seq::<char>::empty()]
    } else {
        let prev = split_slash(s.drop_last());
        if s.last() == '/' {
            prev.push(Seq::<char>::empty())
        } else {
            prev.update(prev.len() - 1, prev.last().push(s.last()))
        }
    }
}

pub open spec fn dot() -> Seq<char> {
    seq!['.']
}

pub open spec fn dot_dot() -> Seq<char> {
    seq!['.', '.']
}

/// Whether a segment yields no component (empty, or `.` past the start).
pub open spec fn vanishing_segment(seg: Seq<char>) -> bool {
    seg.len() == 0 || seg == dot()
}

pub open spec fn segment_part(seg: Seq<char>) -> PartView {
    if seg == dot_dot() {
        PartView::Parent
    } else {
        PartView::Normal(seg)
    }
}

/// The components that a run of segments yields.
pub open spec fn segment_parts(segs: Seq<Seq<char>>) -> Seq<PartView>
    decreases segs.len(),
{
    if segs.len() == 0 {
        Seq::empty()
    } else {
        let prev = segment_parts(segs.drop_last());
        if vanishing_segment(segs.last()) {
            prev
        } else {
            prev.push(segment_part(segs.last()))
        }
    }
}

/// Whether the path starts with the current directory: it is `.` or starts
/// with `./`.
pub open spec fn leading_cur_dir(s: Seq<char>) -> bool {
    (s.len() == 1 && s[0] == '.') || (s.len() >= 2 && s[0] == '.' && s[1] == '/')
}

/// The components of the path `s`.
pub open spec fn path_parts(s: Seq<char>) -> Seq<PartView> {
    if s.len() > 0 && s[0] == '/' {
        seq![PartView::Root] + segment_parts(split_slash(s))
    } else if leading_cur_dir(s) {
        seq![PartView::Cur] + segment_parts(split_slash(s))
    } else {
        segment_parts(split_slash(s))
    }
}

/// Whether `base` is a leading run of the components of `path`.
pub open spec fn parts_start_with(path: Seq<PartView>, base: Seq<PartView>) -> bool {
    base.len() <= path.len() && forall|i: int| 0 <= i < base.len() ==> path[i] == base[i]
}

/// The names of the normal components, in order.
pub open spec fn normal_names(parts: Seq<PartView>) -> Seq<Seq<char>>
    decreases parts.len(),
{
    if parts.len() == 0 {
        Seq::empty()
    } else {
        let prev = normal_names(parts.drop_last());
        match parts.last() {
            PartView::Normal(name) => prev.push(name),
            _ => prev,
        }
    }
}

/// The names joined with `/` between them.
pub open spec fn join_with_slash(names: Seq<Seq<char>>) -> Seq<char>
    decreases names.len(),
{
    if names.len() == 0 {
        Seq::empty()
    } else if names.len() == 1 {
        names[0]
    } else {
        join_with_slash(names.drop_last()) + seq!['/'] + names.last()
    }
}

/// How a path is shown to the model: its normal components joined by `/`.
pub open spec fn display_path(s: Seq<char>) -> Seq<char> {
    join_with_slash(normal_names(path_parts(s)))
}

/// Whether the path is exactly one normal component.
pub open spec fn single_normal(s: Seq<char>) -> bool {
    path_parts(s).len() == 1 && path_parts(s)[0] is Normal
}

fn segment_to_part(seg: &Vec<char>) -> (r: PathPart)
    requires
        !vanishing_segment(seg@),
    ensures
        r@ == segment_part(seg@),
{
    if seg.len() == 2 && seg[0] == '.' && seg[1] == '.' {
        assert(seg@ =~= dot_dot());
        PathPart::ParentDir
    } else {
        assert(seg@ != dot_dot());
        PathPart::Normal(string_from_chars(seg.as_slice()))
    }
}

fn is_vanishing(seg: &Vec<char>) -> (r: bool)
    ensures
        r == vanishing_segment(seg@),
{
    if seg.len() == 0 {
        true
    } else if seg.len() == 1 && seg[0] == '.' {
        assert(seg@ =~= dot());
        true
    } else {
        assert(seg@ != dot());
        false
    }
}

/// The components of the path `s`, as `Path::components` yields them.
pub fn path_components(s: &str) -> (r: Vec<PathPart>)
    ensures
        parts_view(r@) == path_parts(s@),
{
    let cs = chars_of(s);
    let n = cs.len();
    let mut parts: Vec<PathPart> = Vec::new();
    let rooted = n > 0 && cs[0] == '/';
    let cur = !rooted && ((n == 1 && cs[0] == '.') || (n >= 2 && cs[0] == '.' && cs[1] == '/'));
    if rooted {
        parts.push(PathPart::RootDir);
        assert(parts_view(parts@) =~= seq![PartView::Root]);
    } else if cur {
        parts.push(PathPart::CurDir);
        assert(parts_view(parts@) =~= seq![PartView::Cur]);
    } else {
        assert(parts_view(parts@) =~= Seq::<PartView>::empty());
    }
    let ghost lead: Seq<PartView> = parts_view(parts@);
    let mut seg: Vec<char> = Vec::new();
    let mut i: usize = 0;
    proof {
        assert(cs@.take(0) =~= Seq::<char>::empty());
        assert(lead + segment_parts(Seq::<Seq<char>>::empty()) =~= lead);
    }
    while i < n
        invariant
            n == cs@.len(),
            cs@ == s@,
            i <= n,
            split_slash(cs@.take(i as int)).len() >= 1,
            split_slash(cs@.take(i as int)).last() == seg@,
            parts_view(parts@) == lead + segment_parts(split_slash(cs@.take(i as int)).drop_last()),
        decreases n - i,
    {
        let c = cs[i];
        let ghost prev = split_slash(cs@.take(i as int));
        assert(cs@.take(i + 1).drop_last() =~= cs@.take(i as int));
        assert(cs@.take(i + 1).last() == c);
        if c == '/' {
            let ghost next = prev.push(Seq::<char>::empty());
            assert(split_slash(cs@.take(i + 1)) == next);
            assert(next.drop_last() =~= prev);
            let ghost old_pv = parts_view(parts@);
            if !is_vanishing(&seg) {
                let part = segment_to_part(&seg);
                let ghost pv = part@;
                parts.push(part);
                assert(parts_view(parts@) =~= old_pv.push(pv));
            }
            assert(prev.drop_last().push(prev.last()) =~= prev);
            assert(parts_view(parts@) =~= lead + segment_parts(prev));
            seg = Vec::new();
        } else {
            let ghost next = prev.update(prev.len() - 1, prev.last().push(c));
            assert(split_slash(cs@.take(i + 1)) == next);
            assert(next.drop_last() =~= prev.drop_last());
            seg.push(c);
        }
        i = i + 1;
    }
    assert(cs@.take(n as int) =~= cs@);
    let ghost segs = split_slash(cs@);
    let ghost old_pv = parts_view(parts@);
    if !is_vanishing(&seg) {
        let part = segment_to_part(&seg);
        let ghost pv = part@;
        parts.push(part);
        assert(parts_view(parts@) =~= old_pv.push(pv));
    }
    proof {
        assert(segs.drop_last().push(segs.last()) =~= segs);
        assert(parts_view(parts@) =~= lead + segment_parts(segs));
    }
    parts
}

/// Whether two components are the same.
pub fn part_eq(a: &PathPart, b: &PathPart) -> (r: bool)
    ensures
        r == (a@ == b@),
{
    match (a, b) {
        (PathPart::RootDir, PathPart::RootDir) => true,
        (PathPart::CurDir, PathPart::CurDir) => true,
        (PathPart::ParentDir, PathPart::ParentDir) => true,
        (PathPart::Normal(x), PathPart::Normal(y)) => str_eq(x.as_str(), y.as_str()),
        _ => false,
    }
}

/// Whether `base` is a leading run of the components of `path`
/// (`Path::starts_with`).
pub fn parts_prefix(path: &[PathPart], base: &[PathPart]) -> (r: bool)
    ensures
        r == parts_start_with(parts_view(path@), parts_view(base@)),
{
    if base.len() > path.len() {
        return false;
    }
    let mut i: usize = 0;
    while i < base.len()
        invariant
            base@.len() <= path@.len(),
            i <= base@.len(),
            forall|j: int| 0 <= j < i ==> parts_view(path@)[j] == parts_view(base@)[j],
        decreases base@.len() - i,
    {
        if !part_eq(&path[i], &base[i]) {
            assert(parts_view(path@)[i as int] != parts_view(base@)[i as int]);
            return false;
        }
        i = i + 1;
    }
    true
}

/// Whether two paths have the same components (`Path` equality).
pub fn parts_equal(a: &[PathPart], b: &[PathPart]) -> (r: bool)
    ensures
        r == (parts_view(a@) == parts_view(b@)),
{
    if a.len() != b.len() {
        assert(parts_view(a@).len() != parts_view(b@).len());
        return false;
    }
    let r = parts_prefix(a, b);
    if r {
        assert(parts_view(a@) =~= parts_view(b@));
    }
    r
}

/// Whether the path string `base` is a leading run of the components of
/// the path string `path`.
pub fn path_starts_with(path: &str, base: &str) -> (r: bool)
    ensures
        r == parts_start_with(path_parts(path@), path_parts(base@)),
{
    let p = path_components(path);
    let b = path_components(base);
    parts_prefix(p.as_slice(), b.as_slice())
}

proof fn lemma_join_push(names: Seq<Seq<char>>, name: Seq<char>)
    ensures
        join_with_slash(names.push(name)) == (if names.len() == 0 {
            name
        } else {
            join_with_slash(names) + seq!['/'] + name
        }),
{
    assert(names.push(name).drop_last() =~= names);
}

/// The names of the normal components among `parts`, joined by `/`, and
/// whether there was any.
pub fn join_normal_names(parts: &[PathPart]) -> (r: (String, bool))
    ensures
        r.0@ == join_with_slash(normal_names(parts_view(parts@))),
        r.1 == (normal_names(parts_view(parts@)).len() > 0),
{
    let ghost pv = parts_view(parts@);
    let mut r = String::new();
    let mut any = false;
    let mut i: usize = 0;
    proof {
        assert(pv.take(0) =~= Seq::<PartView>::empty());
    }
    while i < parts.len()
        invariant
            pv == parts_view(parts@),
            i <= parts@.len(),
            any == (normal_names(pv.take(i as int)).len() > 0),
            r@ == join_with_slash(normal_names(pv.take(i as int))),
        decreases parts@.len() - i,
    {
        let ghost names = normal_names(pv.take(i as int));
        assert(pv.take(i + 1).drop_last() =~= pv.take(i as int));
        assert(pv.take(i + 1).last() == pv[i as int]);
        match &parts[i] {
            PathPart::Normal(name) => {
                proof {
                    lemma_join_push(names, name@);
                }
                if any {
                    push_char(&mut r, '/');
                }
                r.append(name.as_str());
                assert(r@ =~= join_with_slash(names.push(name@)));
                any = true;
            },
            _ => {},
        }
        i = i + 1;
    }
    assert(pv.take(parts@.len() as int) =~= pv);
    (r, any)
}

/// The normal components of `path` joined by `/`.
pub fn display_relative_path(path: &str) -> (r: String)
    ensures
        r@ == display_path(path@),
{
    let parts = path_components(path);
    join_normal_names(parts.as_slice()).0
}

/// How the child `name` of the directory at `directory` is shown: the
/// normal components of the directory, then the name, joined by `/`.
pub open spec fn child_relative_path(directory: Seq<char>, name: Seq<char>) -> Seq<char> {
    join_with_slash(normal_names(path_parts(directory)).push(name))
}

/// The shown relative path of `name` inside `directory`.
pub fn child_relative_path_of(directory: &str, name: &str) -> (r: String)
    ensures
        r@ == child_relative_path(directory@, name@),
{
    let parts = path_components(directory);
    let (mut shown, any) = join_normal_names(parts.as_slice());
    proof {
        lemma_join_push(normal_names(path_parts(directory@)), name@);
    }
    if any {
        push_char(&mut shown, '/');
    }
    shown.append(name);
    assert(shown@ =~= child_relative_path(directory@, name@));
    shown
}

/// Whether the path is exactly one normal component.
pub fn is_single_normal(path: &str) -> (r: bool)
    ensures
        r == single_normal(path@),
{
    let parts = path_components(path);
    parts.len() == 1 && match &parts[0] {
        PathPart::Normal(_) => true,
        _ => false,
    }
}

/// The index of the last `.` in `s`, or -1.
pub open spec fn last_dot(s: Seq<char>) -> int
    decreases s.len(),
{
    if s.len() == 0 {
        -1
    } else if s.last() == '.' {
        s.len() - 1
    } else {
        last_dot(s.drop_last())
    }
}

/// The extension of a file name (`Path::extension`): what follows its last
/// `.`, unless that dot starts the name; `..` has none.
pub open spec fn name_extension(name: Seq<char>) -> Option<Seq<char>> {
    if name == dot_dot() || last_dot(name) <= 0 {
        None
    } else {
        Some(name.subrange(last_dot(name) + 1, name.len() as int))
    }
}

/// The extension of a file name.
pub fn file_extension(name: &str) -> (r: Option<String>)
    ensures
        r matches Some(ext) ==> name_extension(name@) == Some(ext@),
        r is None ==> name_extension(name@) is None,
{
    let cs = chars_of(name);
    let n = cs.len();
    if n == 2 && cs[0] == '.' && cs[1] == '.' {
        assert(cs@ =~= dot_dot());
        return None;
    }
    let mut j: usize = n;
    proof {
        assert(cs@.take(n as int) =~= cs@);
    }
    while j > 0 && cs[j - 1] != '.'
        invariant
            n == cs@.len(),
            j <= n,
            last_dot(cs@) == last_dot(cs@.take(j as int)),
        decreases j,
    {
        assert(cs@.take(j as int).drop_last() =~= cs@.take(j - 1));
        j = j - 1;
    }
    if j > 0 {
        assert(cs@.take(j as int).last() == '.');
    }
    if j <= 1 {
        None
    } else {
        let ext = string_from_chars(vstd::slice::slice_subrange(cs.as_slice(), j, n));
        assert(ext@ =~= cs@.subrange(j as int, n as int));
        Some(ext)
    }
}

} // verus!
