//! One connection's state: its pending requests and its identifier counter.
use vstd::prelude::*;
use crate::dispatch::{add_requests, can_dispatch, expected_request, ids_below, request_count};
use crate::method::BitburnerMethod;
use crate::request::{IdCounter, Request};
use crate::response::{outcome_of, process_response, Processed, Response};
use crate::table::{resumes, RequestTable};

verus! {

/// The pending requests of one connection and the counter their identifiers
/// come from.
pub struct Session {
    pub request_map: RequestTable,
    pub ids: IdCounter,
}

impl Session {
    /// No pending identifier can be handed out again.
    pub open spec fn wf(&self) -> bool {
        ids_below(self.request_map@, self.ids.next)
    }

    /// A session with no pending request.
    pub fn new() -> (r: Session)
        ensures
            r.wf(),
            r.request_map@.len() == 0,
            r.ids.next == 0,
    {
        Session { request_map: RequestTable::new(), ids: IdCounter::new() }
    }

    /// The requests that `method` takes, each registered as pending before it
    /// is handed out to be sent; a push takes one per file of `files`, given
    /// as (name, content). `None`, with nothing changed, when the identifiers
    /// would run out.
    pub fn dispatch(&mut self, method: BitburnerMethod, files: &Vec<(String, String)>) -> (r: Option<Vec<Request>>)
        requires
            old(self).wf(),
            can_dispatch(method),
        ensures
            final(self).wf(),
            (old(self).ids.next + request_count(method, files@.len()) <= u64::MAX) == r is Some,
            r is None ==> *final(self) == *old(self),
            r matches Some(v) ==> {
                &&& v@.len() == request_count(method, files@.len())
                &&& final(self).ids.next == old(self).ids.next + v@.len()
                &&& forall|i: int|
                    0 <= i < v@.len() ==> {
                        let q = #[trigger] v@[i];
                        &&& q.id == old(self).ids.next + i
                        &&& q@ == expected_request(method, q.id, files@, i)
                        &&& final(self).request_map@.contains_key(q.id)
                        &&& final(self).request_map@[q.id].method == method
                        &&& final(self).request_map@[q.id].request@ == q@
                    }
                &&& forall|k: u64|
                    #[trigger] final(self).request_map@.contains_key(k) <==> old(self).request_map@.contains_key(k)
                        || (old(self).ids.next <= k < final(self).ids.next)
                &&& forall|k: u64|
                    #[trigger] old(self).request_map@.contains_key(k) ==> final(self).request_map@[k]
                        == old(self).request_map@[k]
            },
    {
        let n: u64 = if method == BitburnerMethod::PushFile {
            if files.len() as u128 > u64::MAX as u128 {
                return None;
            }
            files.len() as u64
        } else {
            1
        };
        if !self.ids.can_allocate(n) {
            return None;
        }
        let mut requests: Vec<Request> = Vec::new();
        add_requests(&mut requests, method, &mut self.request_map, &mut self.ids, files);
        proof {
            assert forall|i: int| 0 <= i < requests@.len() implies {
                let q = #[trigger] requests@[i];
                &&& q.id == old(self).ids.next + i
                &&& q@ == expected_request(method, q.id, files@, i)
                &&& self.request_map@.contains_key(q.id)
                &&& self.request_map@[q.id].method == method
                &&& self.request_map@[q.id].request@ == q@
            } by {
                assert(requests@[0 + i] == requests@[i]);
            }
        }
        Some(requests)
    }

    /// Matches `response` with its pending request, as `process_response`
    /// does.
    pub fn answer(&mut self, response: Response) -> (r: Processed)
        requires
            old(self).wf(),
        ensures
            final(self).wf(),
            final(self).ids == old(self).ids,
            final(self).request_map@ == old(self).request_map@.remove(response.spec_id()),
            r.resume == resumes(old(self).request_map@, response.spec_id()),
            outcome_of(old(self).request_map@, response, r.outcome),
    {
        process_response(response, &mut self.request_map)
    }

    /// Whether no request waits for an answer.
    pub fn is_idle(&self) -> (r: bool)
        ensures
            r == (self.request_map@.len() == 0),
    {
        self.request_map.is_empty()
    }
}

/// Ends a session whose connection closed: the number of requests that were
/// left without an answer.
pub fn handle_close(session: Session) -> (r: usize)
    ensures
        r == session.request_map@.len(),
{
    session.request_map.len()
}

} // verus!
