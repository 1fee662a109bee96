//! The table of requests that wait for an answer.
use vstd::prelude::*;
use std::collections::HashMap;
use crate::method::BitburnerMethod;
use crate::request::Request;

verus! {

/// A request that was sent and not yet answered, with its operation.
pub struct PendingEntry {
    pub method: BitburnerMethod,
    pub request: Request,
}

/// Requests that wait for an answer, by identifier.
pub struct RequestTable {
    entries: HashMap<u64, PendingEntry>,
}

impl View for RequestTable {
    type V = Map<u64, PendingEntry>;

    closed spec fn view(&self) -> Map<u64, PendingEntry> {
        self.entries@
    }
}

/// An answer to `id` leaves the table empty after resolving a pending
/// request: the moment the prompt may go on.
pub open spec fn resumes(m: Map<u64, PendingEntry>, id: u64) -> bool {
    m.contains_key(id) && m.remove(id).len() == 0
}

/// The table after answers to the identifiers of `order`, in that order.
pub open spec fn after_answers(m: Map<u64, PendingEntry>, order: Seq<u64>) -> Map<u64, PendingEntry>
    decreases order.len(),
{
    if order.len() == 0 {
        m
    } else {
        after_answers(m.remove(order[0]), order.drop_first())
    }
}

/// How many of the answers to `order`, in that order, resume the prompt.
pub open spec fn resume_count(m: Map<u64, PendingEntry>, order: Seq<u64>) -> nat
    decreases order.len(),
{
    if order.len() == 0 {
        0
    } else {
        (if resumes(m, order[0]) { 1nat } else { 0nat }) + resume_count(m.remove(order[0]), order.drop_first())
    }
}

impl RequestTable {
    /// A table with no pending request.
    pub fn new() -> (r: RequestTable)
        ensures
            r@ == Map::<u64, PendingEntry>::empty(),
    {
        RequestTable { entries: HashMap::new() }
    }

    /// Records `request` as pending, under its identifier. Identifiers of
    /// pending requests never repeat.
    pub fn register(&mut self, request: Request, method: BitburnerMethod)
        requires
            !old(self)@.contains_key(request.id),
        ensures
            final(self)@ == old(self)@.insert(request.id, PendingEntry { method, request }),
    {
        let id = request.id;
        self.entries.insert(id, PendingEntry { method, request });
    }

    /// Removes and returns the entry for `id`; `None`, with the table left as
    /// it was, when no request with that identifier is pending.
    pub fn resolve(&mut self, id: u64) -> (r: Option<PendingEntry>)
        ensures
            old(self)@.contains_key(id) ==> r == Some(old(self)@[id]) && final(self)@ == old(self)@.remove(id),
            !old(self)@.contains_key(id) ==> r is None && final(self)@ == old(self)@,
    {
        let r = self.entries.remove(&id);
        proof {
            if !old(self)@.contains_key(id) {
                assert(final(self)@ =~= old(self)@);
            }
        }
        r
    }

    /// Whether no request is pending.
    pub fn is_empty(&self) -> (r: bool)
        ensures
            r == (self@.len() == 0),
    {
        self.entries.len() == 0
    }

    /// How many requests are pending.
    pub fn len(&self) -> (r: usize)
        ensures
            r == self@.len(),
    {
        self.entries.len()
    }

    /// Whether a request with identifier `id` is pending.
    pub fn contains(&self, id: u64) -> (r: bool)
        ensures
            r == self@.contains_key(id),
    {
        self.entries.contains_key(&id)
    }
}

/// An answer to an identifier that is not pending, never sent or already
/// answered, changes nothing; so a second answer to the same identifier
/// finds nothing and changes nothing.
pub proof fn lemma_answer_twice(m: Map<u64, PendingEntry>, id: u64)
    ensures
        !m.remove(id).contains_key(id),
        m.remove(id).remove(id) == m.remove(id),
        !m.contains_key(id) ==> m.remove(id) == m,
        !resumes(m.remove(id), id),
{
    assert(m.remove(id).remove(id) =~= m.remove(id));
    if !m.contains_key(id) {
        assert(m.remove(id) =~= m);
    }
}

/// Answers to all pending requests, each once and in any order, leave the
/// table empty, and exactly one of them resumes the prompt: the last.
pub proof fn lemma_answer_all(m: Map<u64, PendingEntry>, order: Seq<u64>)
    requires
        order.len() > 0,
        order.no_duplicates(),
        order.to_set() == m.dom(),
    ensures
        after_answers(m, order).len() == 0,
        resume_count(m, order) == 1,
        resumes(after_answers(m, order.drop_last()), order.last()),
    decreases order.len(),
{
    let rest = order.drop_first();
    let m1 = m.remove(order[0]);
    order.lemma_cardinality_of_set();
    assert(m1.dom() =~= rest.to_set()) by {
        assert forall|k: u64| m1.dom().contains(k) <==> rest.to_set().contains(k) by {
            if rest.to_set().contains(k) {
                let j = choose|j: int| 0 <= j < rest.len() && rest[j] == k;
                assert(order[j + 1] == k);
                assert(order.to_set().contains(k));
            }
            if m1.dom().contains(k) {
                assert(order.to_set().contains(k));
                let j = choose|j: int| 0 <= j < order.len() && order[j] == k;
                assert(j != 0);
                assert(rest[j - 1] == k);
            }
        }
    }
    if order.len() == 1 {
        assert(m1.dom() =~= Set::<u64>::empty());
        assert(after_answers(m1, rest) == m1);
        assert(order.drop_last() =~= Seq::<u64>::empty());
        assert(m.contains_key(order[0]));
        assert(m1.len() == 0);
        assert(resumes(m, order[0]));
        assert(rest.len() == 0);
        assert(resume_count(m1, rest) == 0);
    } else {
        assert(rest.no_duplicates());
        lemma_answer_all(m1, rest);
        rest.lemma_cardinality_of_set();
        assert(m1.len() > 0);
        assert(!resumes(m, order[0]));
        assert(order.drop_last().drop_first() =~= rest.drop_last());
        assert(order.drop_last()[0] == order[0]);
        assert(rest.last() == order.last());
        assert(resume_count(m, order) == resume_count(m1, rest));
    }
}

} // verus!
