//! Turning an operation into the requests it takes, each registered before
//! it is sent.
use vstd::prelude::*;
use crate::method::BitburnerMethod;
use crate::request::{
    definition_file_request, file_names_request, push_file_request, IdCounter, Request, RequestView,
};
use crate::table::{PendingEntry, RequestTable};

verus! {

/// The operations that the user's actions ask for.
pub open spec fn can_dispatch(method: BitburnerMethod) -> bool {
    method == BitburnerMethod::PushFile || method == BitburnerMethod::GetFileNames
        || method == BitburnerMethod::GetDefinitionFile
}

/// How many requests an operation takes: one per file for a push, else one.
pub open spec fn request_count(method: BitburnerMethod, n_files: nat) -> nat {
    if method == BitburnerMethod::PushFile {
        n_files
    } else {
        1
    }
}

/// Every pending identifier lies below `next`, so the counter never hands
/// out one that is pending.
pub open spec fn ids_below(m: Map<u64, PendingEntry>, next: u64) -> bool {
    forall|k: u64| m.contains_key(k) ==> k < next
}

/// The `i`-th request of an operation, with identifier `id`; for a push,
/// the `i`-th file given as (name, content).
pub open spec fn expected_request(
    method: BitburnerMethod,
    id: u64,
    files: Seq<(String, String)>,
    i: int,
) -> RequestView {
    if method == BitburnerMethod::PushFile {
        push_file_request(id, files[i].0@, files[i].1@)
    } else if method == BitburnerMethod::GetFileNames {
        file_names_request(id)
    } else {
        definition_file_request(id)
    }
}

/// Registers `request` and keeps it in `requests`, to be sent.
fn register_and_keep(
    requests: &mut Vec<Request>,
    method: BitburnerMethod,
    request_map: &mut RequestTable,
    request: Request,
)
    requires
        !old(request_map)@.contains_key(request.id),
    ensures
        final(requests)@ == old(requests)@.push(request),
        final(request_map)@ == old(request_map)@.insert(
            request.id,
            PendingEntry { method, request: final(request_map)@[request.id].request },
        ),
        final(request_map)@[request.id].request@ == request@,
{
    let copy = request.duplicate();
    request_map.register(copy, method);
    requests.push(request);
}

/// Builds the requests that `method` takes, registers each as pending and
/// appends it to `requests`, in order. A push takes one request per file of
/// `files`, given as (name, content); the other operations take one request.
pub fn add_requests(
    requests: &mut Vec<Request>,
    method: BitburnerMethod,
    request_map: &mut RequestTable,
    ids: &mut IdCounter,
    files: &Vec<(String, String)>,
)
    requires
        can_dispatch(method),
        ids_below(old(request_map)@, old(ids).next),
        old(ids).next + request_count(method, files@.len()) <= u64::MAX,
    ensures
        final(ids).next == old(ids).next + request_count(method, files@.len()),
        ids_below(final(request_map)@, final(ids).next),
        final(requests)@.len() == old(requests)@.len() + request_count(method, files@.len()),
        forall|i: int| 0 <= i < old(requests)@.len() ==> final(requests)@[i] == old(requests)@[i],
        forall|i: int|
            0 <= i < request_count(method, files@.len()) ==> {
                let r = #[trigger] final(requests)@[old(requests)@.len() + i];
                &&& r.id == old(ids).next + i
                &&& r@ == expected_request(method, r.id, files@, i)
                &&& final(request_map)@.contains_key(r.id)
                &&& final(request_map)@[r.id].method == method
                &&& final(request_map)@[r.id].request@ == r@
            },
        forall|k: u64|
            #[trigger] final(request_map)@.contains_key(k) <==> old(request_map)@.contains_key(k)
                || (old(ids).next <= k < final(ids).next),
        forall|k: u64|
            #[trigger] old(request_map)@.contains_key(k) ==> final(request_map)@[k] == old(request_map)@[k],
{
    let ghost start = ids.next;
    let ghost base: int = requests@.len() as int;
    let ghost m0 = request_map@;
    if method == BitburnerMethod::GetFileNames || method == BitburnerMethod::GetDefinitionFile {
        let request = if method == BitburnerMethod::GetFileNames {
            Request::get_file_names(ids)
        } else {
            Request::get_definition_file(ids)
        };
        register_and_keep(requests, method, request_map, request);
        return;
    }
    let mut i: usize = 0;
    while i < files.len()
        invariant
            method == BitburnerMethod::PushFile,
            i <= files@.len(),
            start + files@.len() <= u64::MAX,
            ids.next == start + i,
            ids_below(m0, start),
            requests@.len() == base + i,
            forall|j: int| 0 <= j < base ==> requests@[j] == old(requests)@[j],
            base == old(requests)@.len(),
            m0 == old(request_map)@,
            start == old(ids).next,
            forall|j: int|
                0 <= j < i ==> {
                    let r = #[trigger] requests@[base + j];
                    &&& r.id == start + j
                    &&& r@ == expected_request(method, r.id, files@, j)
                    &&& request_map@.contains_key(r.id)
                    &&& request_map@[r.id].method == method
                    &&& request_map@[r.id].request@ == r@
                },
            forall|k: u64| #[trigger] request_map@.contains_key(k) <==> m0.contains_key(k) || (start <= k < ids.next),
            forall|k: u64| #[trigger] m0.contains_key(k) ==> request_map@[k] == m0[k],
        decreases files@.len() - i,
    {
        let ghost prev_map = request_map@;
        let ghost prev_reqs = requests@;
        let request = Request::push_file(ids, files[i].0.as_str(), files[i].1.as_str());
        assert(!request_map@.contains_key(request.id));
        register_and_keep(requests, method, request_map, request);
        proof {
            assert forall|j: int| 0 <= j < i + 1 implies {
                let r = #[trigger] requests@[base + j];
                &&& r.id == start + j
                &&& r@ == expected_request(method, r.id, files@, j)
                &&& request_map@.contains_key(r.id)
                &&& request_map@[r.id].method == method
                &&& request_map@[r.id].request@ == r@
            } by {
                if j < i {
                    assert(requests@[base + j] == prev_reqs[base + j]);
                    assert(prev_reqs[base + j].id != request.id);
                }
            }
        }
        i = i + 1;
    }
}

} // verus!
