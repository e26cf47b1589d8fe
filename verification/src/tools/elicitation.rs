//! Questions put to the user in the middle of a tool call: a write that needs
//! a checkout, or a source-control action that asks for confirmation. Each
//! pending question is kept under an id until the answer comes back.

use vstd::prelude::*;
use crate::text::{all_ascii, ascii_lower, dec, eq_ignore_ascii_case, lowercase, push_dec, str_eq, to_lowercase, to_owned_string};

verus! {

/// What the answered question resumes.
#[derive(Debug, Clone, Copy, PartialEq, Eq, Structural)]
pub enum ElicitationAction {
    /// Write a document.
    Put,
    /// Run a source-control action.
    ScmExecute,
}

/// A question waiting for the user's answer, with what is needed to resume.
pub struct PendingElicitation {
    pub id: String,
    pub document: String,
    pub action: ElicitationAction,
    /// The content to write, for a pending write.
    pub content: Option<String>,
    /// The source-control action, for a pending action.
    pub scm_action_id: Option<String>,
    pub namespace: String,
}

/// The questions waiting for answers.
pub struct ElicitationStore {
    next: u64,
    pending: Vec<PendingElicitation>,
}

/// The most recent pending question with this id.
pub open spec fn find_pending(ps: Seq<PendingElicitation>, id: Seq<char>) -> Option<PendingElicitation>
    decreases ps.len(),
{
    if ps.len() == 0 {
        None
    } else if ps.last().id@ == id {
        Some(ps.last())
    } else {
        find_pending(ps.drop_last(), id)
    }
}

/// The pending questions without those under `id`.
pub open spec fn without_id(ps: Seq<PendingElicitation>, id: Seq<char>) -> Seq<PendingElicitation>
    decreases ps.len(),
{
    if ps.len() == 0 {
        ps
    } else if ps.last().id@ == id {
        without_id(ps.drop_last(), id)
    } else {
        without_id(ps.drop_last(), id).push(ps.last())
    }
}

impl ElicitationStore {
    /// The pending questions, oldest first.
    pub closed spec fn entries(self) -> Seq<PendingElicitation> {
        self.pending@
    }

    /// The number the next id is made from.
    pub closed spec fn counter(self) -> u64 {
        self.next
    }

    /// An empty store.
    pub fn new() -> (r: Self)
        ensures
            r.entries().len() == 0,
            r.counter() == 0,
    {
        ElicitationStore { next: 0, pending: Vec::new() }
    }

    /// Keeps a new question and returns its id: `elicit-` and the counter.
    pub fn insert(
        &mut self,
        document: &str,
        action: ElicitationAction,
        content: Option<String>,
        scm_action_id: Option<String>,
        namespace: String,
    ) -> (id: String)
        ensures
            id@ == "elicit-"@ + dec(old(self).counter() as nat),
            final(self).counter() == old(self).counter().wrapping_add(1),
            final(self).entries().len() == old(self).entries().len() + 1,
            final(self).entries().drop_last() == old(self).entries(),
            ({
                let e = final(self).entries().last();
                &&& e.id@ == id@
                &&& e.document@ == document@
                &&& e.action == action
                &&& e.content == content
                &&& e.scm_action_id == scm_action_id
                &&& e.namespace == namespace
            }),
    {
        let mut id = String::new();
        id.append("elicit-");
        push_dec(&mut id, self.next);
        self.next = self.next.wrapping_add(1);
        let ghost before = self.pending@;
        self.pending.push(
            PendingElicitation {
                id: to_owned_string(id.as_str()),
                document: to_owned_string(document),
                action,
                content,
                scm_action_id,
                namespace,
            },
        );
        assert(self.pending@.drop_last() =~= before);
        id
    }

    /// The question pending under `id`, if any.
    pub fn lookup(&self, id: &str) -> (r: Option<&PendingElicitation>)
        ensures
            match r {
                Some(p) => find_pending(self.entries(), id@) == Some(*p),
                None => find_pending(self.entries(), id@) is None,
            },
    {
        let mut i = self.pending.len();
        assert(self.pending@.take(i as int) =~= self.pending@);
        while i > 0
            invariant
                i <= self.pending.len(),
                find_pending(self.pending@, id@) == find_pending(self.pending@.take(i as int), id@),
            decreases i,
        {
            let ghost t = self.pending@.take(i as int);
            assert(t.last() == self.pending@[i - 1]);
            assert(t.drop_last() =~= self.pending@.take(i - 1));
            if str_eq(self.pending[i - 1].id.as_str(), id) {
                return Some(&self.pending[i - 1]);
            }
            i -= 1;
        }
        assert(self.pending@.take(0) =~= Seq::<PendingElicitation>::empty());
        None
    }

    /// Forgets every question pending under `id`.
    pub fn clear(&mut self, id: &str)
        ensures
            final(self).entries() == without_id(old(self).entries(), id@),
            final(self).counter() == old(self).counter(),
    {
        let ghost before = self.pending@;
        let mut kept: Vec<PendingElicitation> = Vec::new();
        let mut rest: Vec<PendingElicitation> = Vec::new();
        std::mem::swap(&mut rest, &mut self.pending);
        let ghost all = rest@;
        assert(all == before);
        let mut taken: Vec<PendingElicitation> = Vec::new();
        while rest.len() > 0
            invariant
                rest.len() + taken.len() == all.len(),
                forall|k: int| 0 <= k < rest.len() ==> #[trigger] rest@[k] == all[k],
                forall|k: int| 0 <= k < taken.len() ==> #[trigger] taken@[k] == all[all.len() - 1 - k],
            decreases rest.len(),
        {
            let e = rest.pop().unwrap();
            taken.push(e);
        }
        let n = taken.len();
        while taken.len() > 0
            invariant
                taken.len() <= n,
                n == all.len(),
                forall|k: int| 0 <= k < taken.len() ==> #[trigger] taken@[k] == all[n - 1 - k],
                kept@ == without_id(all.take(n - taken.len()), id@),
            decreases taken.len(),
        {
            let ghost i = n - taken.len();
            let e = taken.pop().unwrap();
            assert(e == all[i]);
            assert(all.take(i + 1).drop_last() =~= all.take(i));
            assert(all.take(i + 1).last() == all[i]);
            if !str_eq(e.id.as_str(), id) {
                kept.push(e);
            }
        }
        assert(all.take(n as int) =~= all);
        self.pending = kept;
    }
}

/// A checkout answer that agrees: `yes` in any case.
pub fn answered_yes(answer: &str) -> (b: bool)
    ensures
        b == (lowercase(answer@) == "yes"@),
        all_ascii(answer@) ==> (b == eq_ignore_ascii_case(answer@, "yes"@)),
{
    let low = to_lowercase(answer);
    let b = str_eq(low.as_str(), "yes");
    proof {
        reveal_strlit("yes");
        if all_ascii(answer@) {
            let m = answer@.map_values(|c: char| ascii_lower(c));
            if eq_ignore_ascii_case(answer@, "yes"@) {
                assert(m =~= "yes"@);
            }
            if m == "yes"@ {
                assert(forall|i: int| 0 <= i < 3 ==> #[trigger] ascii_lower("yes"@[i]) == "yes"@[i]);
                assert(forall|i: int| 0 <= i < 3 ==> ascii_lower(answer@[i]) == #[trigger] m[i]);
            }
        }
    }
    b
}

/// What an answer to a pending write comes to.
#[derive(Debug, Clone, Copy, PartialEq, Eq, Structural)]
pub enum PutResume {
    /// No question is pending under the id any more: `ELICITATION_EXPIRED`.
    Expired,
    /// The user declined the checkout: `WRITE_ABORTED`.
    Declined,
    /// The user agreed: write the pending content.
    Write,
}

/// Resuming a write: expired when the store holds no question under the id,
/// declined unless the answer is `yes` (in any case), else the write goes on.
pub fn put_resume(store: &ElicitationStore, id: &str, answer: &str) -> (r: PutResume)
    ensures
        r == if find_pending(store.entries(), id@) is None {
            PutResume::Expired
        } else if lowercase(answer@) != "yes"@ {
            PutResume::Declined
        } else {
            PutResume::Write
        },
{
    match store.lookup(id) {
        None => PutResume::Expired,
        Some(_) => if answered_yes(answer) {
            PutResume::Write
        } else {
            PutResume::Declined
        },
    }
}

/// What a read gives back of a write: right after a question is kept, it is
/// what its id finds; and once an id is cleared, nothing is found under it,
/// while other ids find what they found before.
pub proof fn lemma_elicitation_round_trip(before: Seq<PendingElicitation>, e: PendingElicitation, id: Seq<char>, other: Seq<char>)
    requires
        other != id,
    ensures
        find_pending(before.push(e), e.id@) == Some(e),
        find_pending(without_id(before, id), id) is None,
        find_pending(without_id(before, id), other) == find_pending(before, other),
    decreases before.len(),
{
    assert(before.push(e).last() == e);
    if before.len() > 0 {
        let d = before.drop_last();
        let x = before.last();
        lemma_elicitation_round_trip(d, e, id, other);
        let w = without_id(d, id);
        if x.id@ != id {
            assert(w.push(x).last() == x);
            assert(w.push(x).drop_last() =~= w);
        }
    }
}

} // verus!
