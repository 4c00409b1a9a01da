//! The agent runs under way: the handle that cancels each, and the tool
//! calls of each that wait for the user's decision.

use vstd::prelude::*;

use crate::text::str_eq;

verus! {

/// The items of `s` that satisfy `keep`, in order.
pub open spec fn filtered<A>(s: Seq<A>, keep: spec_fn(A) -> bool) -> Seq<A>
    decreases s.len(),
{
    if s.len() == 0 {
        s
    } else {
        let rest = filtered(s.drop_last(), keep);
        if keep(s.last()) {
            rest.push(s.last())
        } else {
            rest
        }
    }
}

proof fn lemma_push_contains<A>(q: Seq<A>, x: A, e: A)
    ensures
        q.push(x).contains(e) <==> (q.contains(e) || e == x),
{
    if q.contains(e) {
        let k = choose|k: int| 0 <= k < q.len() && q[k] == e;
        assert(q.push(x)[k] == e);
    }
    if e == x {
        assert(q.push(x)[q.len() as int] == e);
    }
    if q.push(x).contains(e) {
        let k = choose|k: int| 0 <= k < q.push(x).len() && q.push(x)[k] == e;
        if k < q.len() {
            assert(q[k] == e);
        }
    }
}

/// The filtered items are exactly the items that satisfy `keep`.
pub proof fn lemma_filtered_contains<A>(s: Seq<A>, keep: spec_fn(A) -> bool, e: A)
    ensures
        filtered(s, keep).contains(e) <==> (s.contains(e) && keep(e)),
    decreases s.len(),
{
    if s.len() > 0 {
        let t = s.drop_last();
        lemma_filtered_contains(t, keep, e);
        assert(s =~= t.push(s.last()));
        lemma_push_contains(t, s.last(), e);
        lemma_push_contains(filtered(t, keep), s.last(), e);
    }
}

/// A run under way and what cancels it.
pub struct RunView<S> {
    pub run_id: Seq<char>,
    pub sender: S,
}

/// A tool call waiting for a decision and what delivers it.
pub struct ApprovalView<A> {
    pub run_id: Seq<char>,
    pub tool_call_id: Seq<char>,
    pub sender: A,
}

pub open spec fn other_run<S>(run_id: Seq<char>) -> spec_fn(RunView<S>) -> bool {
    |r: RunView<S>| r.run_id != run_id
}

pub open spec fn other_call<A>(run_id: Seq<char>, tool_call_id: Seq<char>) -> spec_fn(
    ApprovalView<A>,
) -> bool {
    |a: ApprovalView<A>| !(a.run_id == run_id && a.tool_call_id == tool_call_id)
}

pub open spec fn other_run_calls<A>(run_id: Seq<char>) -> spec_fn(ApprovalView<A>) -> bool {
    |a: ApprovalView<A>| a.run_id != run_id
}

/// Whether the tool call `tool_call_id` of run `run_id` waits for a
/// decision.
pub open spec fn waiting<A>(approvals: Seq<ApprovalView<A>>, run_id: Seq<char>, tool_call_id: Seq<char>) -> bool {
    exists|i: int|
        0 <= i < approvals.len() && (#[trigger] approvals[i]).run_id == run_id
            && approvals[i].tool_call_id == tool_call_id
}

/// The runs under way, generic in what cancels a run (`S`) and what
/// delivers a decision (`A`).
pub struct ActiveRuns<S, A> {
    senders: Vec<(String, S)>,
    approvals: Vec<(String, String, A)>,
}

impl<S, A> ActiveRuns<S, A> {
    pub closed spec fn runs(&self) -> Seq<RunView<S>> {
        self.senders@.map_values(|p: (String, S)| RunView { run_id: p.0@, sender: p.1 })
    }

    pub closed spec fn pending(&self) -> Seq<ApprovalView<A>> {
        self.approvals@.map_values(
            |p: (String, String, A)| ApprovalView { run_id: p.0@, tool_call_id: p.1@, sender: p.2 },
        )
    }

    pub fn new() -> (r: Self)
        ensures
            r.runs().len() == 0,
            r.pending().len() == 0,
    {
        let r = ActiveRuns { senders: Vec::new(), approvals: Vec::new() };
        assert(r.runs() =~= Seq::<RunView<S>>::empty());
        assert(r.pending() =~= Seq::<ApprovalView<A>>::empty());
        r
    }

    /// Forgets the run `run_id`.
    fn drop_run(&mut self, run_id: &str)
        ensures
            final(self).runs() == filtered(old(self).runs(), other_run::<S>(run_id@)),
            final(self).pending() == old(self).pending(),
    {
        let ghost old_s = self.runs();
        let mut old_senders: Vec<(String, S)> = Vec::new();
        std::mem::swap(&mut old_senders, &mut self.senders);
        let mut kept: Vec<(String, S)> = Vec::new();
        let ghost view_of = |p: (String, S)| RunView { run_id: p.0@, sender: p.1 };
        assert(old_senders@.map_values(view_of) == old_s);
        let n = old_senders.len();
        let mut i: usize = 0;
        assert(old_s.take(0) =~= Seq::<RunView<S>>::empty());
        assert(kept@.map_values(view_of) =~= Seq::<RunView<S>>::empty());
        while i < n
            invariant
                view_of == (|p: (String, S)| RunView { run_id: p.0@, sender: p.1 }),
                n == old_senders@.len() + i,
                old_senders@.map_values(view_of) == old_s.skip(i as int),
                i <= n,
                n == old_s.len(),
                kept@.map_values(view_of) == filtered(old_s.take(i as int), other_run::<S>(run_id@)),
            decreases n - i,
        {
            let ghost before_rest = old_senders@;
            let p = old_senders.remove(0);
            assert(view_of(p) == old_s[i as int]) by {
                assert(old_s.skip(i as int)[0] == old_s[i as int]);
                assert(before_rest.map_values(view_of)[0] == view_of(before_rest[0]));
            }
            assert forall|j: int| 0 <= j < old_senders@.len() implies old_senders@.map_values(
                view_of,
            )[j] == old_s.skip(i + 1)[j] by {
                assert(old_senders@[j] == before_rest[j + 1]);
                assert(before_rest.map_values(view_of)[j + 1] == old_s.skip(i as int)[j + 1]);
            }
            assert(old_senders@.map_values(view_of) =~= old_s.skip(i + 1));
            assert(old_s.take(i + 1).drop_last() =~= old_s.take(i as int));
            assert(old_s.take(i + 1).last() == old_s[i as int]);
            if !str_eq(p.0.as_str(), run_id) {
                let ghost before = kept@.map_values(view_of);
                kept.push(p);
                assert(kept@.map_values(view_of) =~= before.push(old_s[i as int]));
            }
            i = i + 1;
        }
        assert(old_s.take(n as int) =~= old_s);
        self.senders = kept;
    }

    /// Forgets the waiting calls that `keep` rejects.
    fn drop_calls(&mut self, run_id: &str, tool_call_id: Option<&str>)
        ensures
            final(self).runs() == old(self).runs(),
            final(self).pending() == filtered(
                old(self).pending(),
                match tool_call_id {
                    Some(c) => other_call::<A>(run_id@, c@),
                    None => other_run_calls::<A>(run_id@),
                },
            ),
    {
        let ghost keep = match tool_call_id {
            Some(c) => other_call::<A>(run_id@, c@),
            None => other_run_calls::<A>(run_id@),
        };
        let ghost old_s = self.pending();
        let mut old_calls: Vec<(String, String, A)> = Vec::new();
        std::mem::swap(&mut old_calls, &mut self.approvals);
        let mut kept: Vec<(String, String, A)> = Vec::new();
        let ghost view_of = |p: (String, String, A)|
            ApprovalView { run_id: p.0@, tool_call_id: p.1@, sender: p.2 };
        assert(old_calls@.map_values(view_of) == old_s);
        let n = old_calls.len();
        let mut i: usize = 0;
        assert(old_s.take(0) =~= Seq::<ApprovalView<A>>::empty());
        assert(kept@.map_values(view_of) =~= Seq::<ApprovalView<A>>::empty());
        while i < n
            invariant
                view_of == (|p: (String, String, A)|
                    ApprovalView { run_id: p.0@, tool_call_id: p.1@, sender: p.2 }),
                keep == match tool_call_id {
                    Some(c) => other_call::<A>(run_id@, c@),
                    None => other_run_calls::<A>(run_id@),
                },
                n == old_calls@.len() + i,
                old_calls@.map_values(view_of) == old_s.skip(i as int),
                i <= n,
                n == old_s.len(),
                kept@.map_values(view_of) == filtered(old_s.take(i as int), keep),
            decreases n - i,
        {
            let ghost before_rest = old_calls@;
            let p = old_calls.remove(0);
            assert(view_of(p) == old_s[i as int]) by {
                assert(old_s.skip(i as int)[0] == old_s[i as int]);
                assert(before_rest.map_values(view_of)[0] == view_of(before_rest[0]));
            }
            assert forall|j: int| 0 <= j < old_calls@.len() implies old_calls@.map_values(
                view_of,
            )[j] == old_s.skip(i + 1)[j] by {
                assert(old_calls@[j] == before_rest[j + 1]);
                assert(before_rest.map_values(view_of)[j + 1] == old_s.skip(i as int)[j + 1]);
            }
            assert(old_calls@.map_values(view_of) =~= old_s.skip(i + 1));
            assert(old_s.take(i + 1).drop_last() =~= old_s.take(i as int));
            assert(old_s.take(i + 1).last() == old_s[i as int]);
            let matches = match tool_call_id {
                Some(c) => str_eq(p.0.as_str(), run_id) && str_eq(p.1.as_str(), c),
                None => str_eq(p.0.as_str(), run_id),
            };
            assert(matches == !keep(view_of(p)));
            if !matches {
                let ghost before = kept@.map_values(view_of);
                kept.push(p);
                assert(kept@.map_values(view_of) =~= before.push(old_s[i as int]));
            }
            i = i + 1;
        }
        assert(old_s.take(n as int) =~= old_s);
        self.approvals = kept;
    }

    /// Starts tracking a run, in place of an earlier run with the same id.
    pub fn register(&mut self, run_id: String, sender: S)
        ensures
            final(self).runs() == filtered(old(self).runs(), other_run::<S>(run_id@)).push(
                RunView { run_id: run_id@, sender },
            ),
            final(self).pending() == old(self).pending(),
    {
        self.drop_run(run_id.as_str());
        let ghost before = self.runs();
        let ghost rid = run_id@;
        self.senders.push((run_id, sender));
        assert(self.runs() =~= before.push(RunView { run_id: rid, sender }));
    }

    /// Cancelling the run `run_id`: what signals it, if it is under way.
    pub fn cancel(&self, run_id: &str) -> (r: Option<&S>)
        ensures
            r is Some <==> exists|i: int|
                0 <= i < self.runs().len() && (#[trigger] self.runs()[i]).run_id == run_id@,
            r matches Some(s) ==> exists|i: int|
                0 <= i < self.runs().len() && (#[trigger] self.runs()[i]).run_id == run_id@
                    && self.runs()[i].sender == *s,
    {
        let mut i: usize = 0;
        while i < self.senders.len()
            invariant
                i <= self.senders@.len(),
                self.runs().len() == self.senders@.len(),
                forall|j: int| 0 <= j < i ==> (#[trigger] self.runs()[j]).run_id != run_id@,
            decreases self.senders@.len() - i,
        {
            assert(self.runs()[i as int].run_id == self.senders@[i as int].0@);
            if str_eq(self.senders[i].0.as_str(), run_id) {
                assert(self.runs()[i as int].sender == self.senders@[i as int].1);
                return Some(&self.senders[i].1);
            }
            i = i + 1;
        }
        None
    }

    /// Waits for the decision on a tool call, in place of an earlier wait
    /// for the same call.
    pub fn wait_for_approval(&mut self, run_id: String, tool_call_id: String, sender: A)
        ensures
            final(self).runs() == old(self).runs(),
            final(self).pending() == filtered(
                old(self).pending(),
                other_call::<A>(run_id@, tool_call_id@),
            ).push(ApprovalView { run_id: run_id@, tool_call_id: tool_call_id@, sender }),
            waiting(final(self).pending(), run_id@, tool_call_id@),
    {
        self.drop_calls(run_id.as_str(), Some(tool_call_id.as_str()));
        let ghost before = self.pending();
        let ghost rid = run_id@;
        let ghost cid = tool_call_id@;
        self.approvals.push((run_id, tool_call_id, sender));
        assert(self.pending() =~= before.push(
            ApprovalView { run_id: rid, tool_call_id: cid, sender },
        ));
        assert(self.pending()[before.len() as int].run_id == rid);
    }

    /// Takes what delivers the decision on this tool call of this run: only
    /// that call stops waiting.
    pub fn decide(&mut self, run_id: &str, tool_call_id: &str) -> (r: Option<A>)
        ensures
            r is Some <==> waiting(old(self).pending(), run_id@, tool_call_id@),
            r matches Some(s) ==> exists|i: int|
                0 <= i < old(self).pending().len() && (#[trigger] old(self).pending()[i]).run_id
                    == run_id@ && old(self).pending()[i].tool_call_id == tool_call_id@
                    && old(self).pending()[i].sender == s,
            final(self).pending() == filtered(
                old(self).pending(),
                other_call::<A>(run_id@, tool_call_id@),
            ),
            final(self).runs() == old(self).runs(),
    {
        let found = self.call_index(run_id, tool_call_id);
        match found {
            None => {
                proof {
                    lemma_nothing_filtered(self.pending(), other_call::<A>(run_id@, tool_call_id@));
                }
                None
            },
            Some(k) => {
                let ghost old_s = self.pending();
                assert(old_s[k as int].sender == self.approvals@[k as int].2);
                assert(old_s[k as int].run_id == run_id@ && old_s[k as int].tool_call_id == tool_call_id@);
                let (_, _, sender) = self.approvals.remove(k);
                assert(self.pending() =~= old_s.remove(k as int));
                self.drop_calls(run_id, Some(tool_call_id));
                proof {
                    lemma_filtered_remove_rejected(
                        old_s,
                        k as int,
                        other_call::<A>(run_id@, tool_call_id@),
                    );
                }
                Some(sender)
            },
        }
    }

    /// Where this tool call of this run waits, if it does.
    fn call_index(&self, run_id: &str, tool_call_id: &str) -> (r: Option<usize>)
        ensures
            r matches Some(k) ==> k < self.pending().len() && self.pending()[k as int].run_id
                == run_id@ && self.pending()[k as int].tool_call_id == tool_call_id@,
            r is None ==> !waiting(self.pending(), run_id@, tool_call_id@),
            self.pending().len() == self.approvals@.len(),
    {
        let mut i: usize = 0;
        while i < self.approvals.len()
            invariant
                i <= self.approvals@.len(),
                self.pending().len() == self.approvals@.len(),
                forall|j: int|
                    0 <= j < i ==> !((#[trigger] self.pending()[j]).run_id == run_id@
                        && self.pending()[j].tool_call_id == tool_call_id@),
            decreases self.approvals@.len() - i,
        {
            assert(self.pending()[i as int].run_id == self.approvals@[i as int].0@);
            assert(self.pending()[i as int].tool_call_id == self.approvals@[i as int].1@);
            if str_eq(self.approvals[i].0.as_str(), run_id) && str_eq(
                self.approvals[i].1.as_str(),
                tool_call_id,
            ) {
                return Some(i);
            }
            i = i + 1;
        }
        None
    }

    /// Whether this tool call of this run waits for a decision.
    pub fn is_waiting_for_approval(&self, run_id: &str, tool_call_id: &str) -> (r: bool)
        ensures
            r == waiting(self.pending(), run_id@, tool_call_id@),
    {
        let mut i: usize = 0;
        while i < self.approvals.len()
            invariant
                i <= self.approvals@.len(),
                self.pending().len() == self.approvals@.len(),
                forall|j: int|
                    0 <= j < i ==> !((#[trigger] self.pending()[j]).run_id == run_id@
                        && self.pending()[j].tool_call_id == tool_call_id@),
            decreases self.approvals@.len() - i,
        {
            assert(self.pending()[i as int].run_id == self.approvals@[i as int].0@);
            assert(self.pending()[i as int].tool_call_id == self.approvals@[i as int].1@);
            if str_eq(self.approvals[i].0.as_str(), run_id) && str_eq(
                self.approvals[i].1.as_str(),
                tool_call_id,
            ) {
                return true;
            }
            i = i + 1;
        }
        false
    }

    /// Stops tracking a run and every call of it that waits.
    pub fn remove(&mut self, run_id: &str)
        ensures
            final(self).runs() == filtered(old(self).runs(), other_run::<S>(run_id@)),
            final(self).pending() == filtered(old(self).pending(), other_run_calls::<A>(run_id@)),
    {
        self.drop_run(run_id);
        self.drop_calls(run_id, None);
    }
}

/// Removing an item that filtering rejects anyway changes nothing.
pub proof fn lemma_filtered_remove_rejected<A>(s: Seq<A>, k: int, keep: spec_fn(A) -> bool)
    requires
        0 <= k < s.len(),
        !keep(s[k]),
    ensures
        filtered(s.remove(k), keep) == filtered(s, keep),
    decreases s.len(),
{
    if k == s.len() - 1 {
        assert(s.remove(k) =~= s.drop_last());
    } else {
        lemma_filtered_remove_rejected(s.drop_last(), k, keep);
        assert(s.remove(k).drop_last() =~= s.drop_last().remove(k));
        assert(s.remove(k).last() == s.last());
    }
}

/// Filtering that keeps every item changes nothing.
pub proof fn lemma_nothing_filtered<A>(s: Seq<A>, keep: spec_fn(A) -> bool)
    requires
        forall|i: int| 0 <= i < s.len() ==> keep(#[trigger] s[i]),
    ensures
        filtered(s, keep) == s,
    decreases s.len(),
{
    if s.len() > 0 {
        lemma_nothing_filtered(s.drop_last(), keep);
        assert(s.drop_last().push(s.last()) =~= s);
    }
}

/// A decision reaches only the call it names: after it that call no longer
/// waits, and every other call waits as before.
pub proof fn lemma_decision_reaches_only_its_call<A>(
    pending: Seq<ApprovalView<A>>,
    run_id: Seq<char>,
    tool_call_id: Seq<char>,
    other_run_id: Seq<char>,
    other_tool_call_id: Seq<char>,
)
    ensures
        !waiting(filtered(pending, other_call::<A>(run_id, tool_call_id)), run_id, tool_call_id),
        !(other_run_id == run_id && other_tool_call_id == tool_call_id) ==> (waiting(
            filtered(pending, other_call::<A>(run_id, tool_call_id)),
            other_run_id,
            other_tool_call_id,
        ) <==> waiting(pending, other_run_id, other_tool_call_id)),
{
    let keep = other_call::<A>(run_id, tool_call_id);
    let f = filtered(pending, keep);
    if waiting(f, run_id, tool_call_id) {
        let i = choose|i: int|
            0 <= i < f.len() && (#[trigger] f[i]).run_id == run_id && f[i].tool_call_id
                == tool_call_id;
        assert(f.contains(f[i]));
        lemma_filtered_contains(pending, keep, f[i]);
    }
    if !(other_run_id == run_id && other_tool_call_id == tool_call_id) {
        if waiting(f, other_run_id, other_tool_call_id) {
            let i = choose|i: int|
                0 <= i < f.len() && (#[trigger] f[i]).run_id == other_run_id && f[i].tool_call_id
                    == other_tool_call_id;
            assert(f.contains(f[i]));
            lemma_filtered_contains(pending, keep, f[i]);
            let j = choose|j: int| 0 <= j < pending.len() && pending[j] == f[i];
            assert(pending[j].run_id == other_run_id);
        }
        if waiting(pending, other_run_id, other_tool_call_id) {
            let j = choose|j: int|
                0 <= j < pending.len() && (#[trigger] pending[j]).run_id == other_run_id
                    && pending[j].tool_call_id == other_tool_call_id;
            assert(pending.contains(pending[j]));
            lemma_filtered_contains(pending, keep, pending[j]);
            let i = choose|i: int| 0 <= i < f.len() && f[i] == pending[j];
            assert(f[i].run_id == other_run_id);
        }
    }
}

} // verus!
