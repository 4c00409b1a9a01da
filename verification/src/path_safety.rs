//! Resolving a path the user gives inside a root directory, refusing any
//! path that ends up outside it, through `..` or through symbolic links.

use vstd::prelude::*;

use crate::paths::{parts_prefix, parts_start_with, parts_view, path_components, path_parts, PartView, PathPart};
use crate::text::{chars_of, concat_str, push_char};

verus! {

/// Why a path cannot be resolved inside the root.
#[derive(Debug, Clone, PartialEq, Eq)]
pub enum SafetyError {
    RootNotFound,
    PathEscape(String),
}

/// The path the user gives, joined to the root unless it is absolute
/// (`Path::join`).
pub open spec fn join_text(root: Seq<char>, user: Seq<char>) -> Seq<char> {
    if user.len() > 0 && user[0] == '/' {
        user
    } else if root.len() > 0 && root.last() != '/' {
        root + seq!['/'] + user
    } else {
        root + user
    }
}

/// A name for the path that `path_clean::clean` makes of a path.
pub uninterp spec fn cleaned_path(path: Seq<char>) -> Seq<char>;

/// `path_clean::clean`: the path with `.` and `..` resolved lexically.
#[verifier::external_body]
fn clean_path(path: &str) -> (r: String)
    ensures
        r@ == cleaned_path(path@),
{
    path_clean::clean(path).to_string_lossy().into_owned()
}

/// The lexical target of `user` inside `root`.
pub fn resolve_target(root: &str, user: &str) -> (r: String)
    ensures
        r@ == cleaned_path(join_text(root@, user@)),
{
    let u = chars_of(user);
    let rc = chars_of(root);
    let joined = if u.len() > 0 && u[0] == '/' {
        user.to_owned()
    } else if rc.len() > 0 && rc[rc.len() - 1] != '/' {
        let mut j = root.to_owned();
        push_char(&mut j, '/');
        j.append(user);
        j
    } else {
        concat_str(root, user)
    };
    assert(joined@ =~= join_text(root@, user@));
    clean_path(joined.as_str())
}

pub open spec fn normals(names: Seq<Seq<char>>) -> Seq<PartView> {
    names.map_values(|n: Seq<char>| PartView::Normal(n))
}

/// The walk from a path that does not exist up to its nearest existing
/// ancestor, keeping the names it passes.
pub struct AncestorWalk {
    ancestor: Vec<PathPart>,
    tail: Vec<String>,
}

impl AncestorWalk {
    /// The components of the ancestor reached so far.
    pub closed spec fn ancestor_view(&self) -> Seq<PartView> {
        parts_view(self.ancestor@)
    }

    /// The names passed, innermost first.
    pub closed spec fn tail_view(&self) -> Seq<Seq<char>> {
        self.tail@.map_values(|s: String| s@)
    }

    /// The ancestor followed by the names passed: always the starting path.
    pub open spec fn whole(&self) -> Seq<PartView> {
        self.ancestor_view() + normals(self.tail_view().reverse())
    }

    pub fn start(target: &str) -> (r: Self)
        ensures
            r.ancestor_view() == path_parts(target@),
            r.tail_view().len() == 0,
            r.whole() == path_parts(target@),
    {
        let r = AncestorWalk { ancestor: path_components(target), tail: Vec::new() };
        assert(r.tail_view() =~= Seq::<Seq<char>>::empty());
        assert(normals(r.tail_view().reverse()) =~= Seq::<PartView>::empty());
        assert(r.whole() =~= path_parts(target@));
        r
    }

    pub fn ancestor(&self) -> (r: &[PathPart])
        ensures
            parts_view(r@) == self.ancestor_view(),
    {
        self.ancestor.as_slice()
    }

    /// The ancestor does not exist: go up one level, remembering its name.
    /// A path that ends in no name, or has no parent, escapes.
    pub fn step_up(&mut self, user: &str) -> (r: Result<(), SafetyError>)
        ensures
            old(self).ancestor_view().len() > 0 && old(self).ancestor_view().last() is Normal
                ==> r is Ok && final(self).ancestor_view() == old(self).ancestor_view().drop_last()
                && final(self).tail_view() == old(self).tail_view().push(
                old(self).ancestor_view().last()->Normal_0,
            ),
            !(old(self).ancestor_view().len() > 0 && old(self).ancestor_view().last() is Normal)
                ==> (r matches Err(SafetyError::PathEscape(u)) && u@ == user@),
            r is Ok ==> final(self).whole() == old(self).whole(),
    {
        let n = self.ancestor.len();
        if n == 0 {
            return Err(SafetyError::PathEscape(user.to_owned()));
        }
        let ghost before = self.ancestor_view();
        let ghost before_tail = self.tail_view();
        assert(before.last() == self.ancestor@[n - 1]@);
        let is_normal = match &self.ancestor[n - 1] {
            PathPart::Normal(_) => true,
            _ => false,
        };
        if !is_normal {
            return Err(SafetyError::PathEscape(user.to_owned()));
        }
        let last = self.ancestor.pop().unwrap();
        match last {
            PathPart::Normal(name) => {
                let ghost nv = name@;
                self.tail.push(name);
                assert(self.ancestor_view() =~= before.drop_last());
                assert(self.tail_view() =~= before_tail.push(nv));
                assert(self.tail_view().reverse() =~= seq![nv] + before_tail.reverse());
                assert(normals(self.tail_view().reverse()) =~= seq![PartView::Normal(nv)] + normals(
                    before_tail.reverse(),
                ));
                assert(before =~= before.drop_last().push(PartView::Normal(nv)));
                assert(self.whole() =~= before + normals(before_tail.reverse()));
                Ok(())
            },
            _ => Err(SafetyError::PathEscape(user.to_owned())),
        }
    }

    /// The ancestor exists and resolves to `resolved`: the candidate is that
    /// followed by the names passed, outermost first.
    pub fn finish(self, resolved: Vec<PathPart>) -> (r: Vec<PathPart>)
        ensures
            parts_view(r@) == parts_view(resolved@) + normals(self.tail_view().reverse()),
    {
        let ghost tail = self.tail_view();
        let mut p = resolved;
        let ghost start = parts_view(p@);
        let mut names = self.tail;
        while names.len() > 0
            invariant
                names@.map_values(|s: String| s@) == tail.take(names@.len() as int),
                names@.len() <= tail.len(),
                parts_view(p@) == start + normals(tail.skip(names@.len() as int).reverse()),
            decreases names@.len(),
        {
            let ghost k = names@.len();
            let name = names.pop().unwrap();
            let ghost nv = name@;
            assert(tail[k - 1] == nv) by {
                assert(tail.take(k as int)[k - 1] == tail[k - 1]);
            }
            let ghost before = parts_view(p@);
            p.push(PathPart::Normal(name));
            assert(parts_view(p@) =~= before.push(PartView::Normal(nv)));
            assert(names@.map_values(|s: String| s@) =~= tail.take(k - 1));
            assert(tail.skip(k - 1).reverse() =~= tail.skip(k as int).reverse().push(nv));
            assert(normals(tail.skip(k - 1).reverse()) =~= normals(tail.skip(k as int).reverse()).push(
                PartView::Normal(nv),
            ));
        }
        assert(tail.skip(0) =~= tail);
        p
    }
}

/// The resolved path, if it lies inside the root.
pub fn check_within(candidate: Vec<PathPart>, root: &[PathPart], user: &str) -> (r: Result<
    Vec<PathPart>,
    SafetyError,
>)
    ensures
        r is Ok <==> parts_start_with(parts_view(candidate@), parts_view(root@)),
        r matches Ok(path) ==> parts_view(path@) == parts_view(candidate@),
        r matches Err(e) ==> (e matches SafetyError::PathEscape(u) && u@ == user@),
{
    if parts_prefix(candidate.as_slice(), root) {
        Ok(candidate)
    } else {
        Err(SafetyError::PathEscape(user.to_owned()))
    }
}

} // verus!
