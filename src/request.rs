//! Protocol requests: identifiers, construction and JSON encoding.
use vstd::prelude::*;
use crate::json::{decimal, decimal_text, json_quoted, json_string};
use crate::method::BitburnerMethod;
use crate::text::text_eq;

verus! {

/// Version of JSON-RPC that every request declares.
pub const JSONRPC_VERSION: &'static str = "2.0";

/// Hands out request identifiers, each one greater than the last.
pub struct IdCounter {
    /// The identifier the next allocation returns.
    pub next: u64,
}

/// `id` is what an allocation on `before` returned, leaving `after`.
pub open spec fn allocation(before: IdCounter, id: u64, after: IdCounter) -> bool {
    id == before.next && after.next == before.next + 1
}

impl IdCounter {
    /// A counter whose first identifier is zero.
    pub fn new() -> (r: IdCounter)
        ensures
            r.next == 0,
    {
        IdCounter { next: 0 }
    }

    /// Whether `n` more identifiers can be handed out.
    pub fn can_allocate(&self, n: u64) -> (r: bool)
        ensures
            r == (self.next + n <= u64::MAX),
    {
        n <= u64::MAX - self.next
    }

    /// Takes the next identifier.
    pub fn allocate(&mut self) -> (id: u64)
        requires
            old(self).next < u64::MAX,
        ensures
            allocation(*old(self), id, *final(self)),
    {
        let id = self.next;
        self.next = self.next + 1;
        id
    }
}

/// Positions of allocations that follow one another.
proof fn lemma_allocation_offsets(counters: Seq<IdCounter>, ids: Seq<u64>, i: int)
    requires
        counters.len() == ids.len() + 1,
        forall|k: int| 0 <= k < ids.len() ==> allocation(#[trigger] counters[k], ids[k], counters[k + 1]),
        0 <= i < ids.len(),
    ensures
        ids[i] == counters[0].next + i,
    decreases i,
{
    if i > 0 {
        lemma_allocation_offsets(counters, ids, i - 1);
        assert(allocation(counters[i - 1], ids[i - 1], counters[i]));
        assert(allocation(counters[i], ids[i], counters[i + 1]));
    } else {
        assert(allocation(counters[0], ids[0], counters[1]));
    }
}

/// Identifiers taken one after another from a counter strictly increase, so
/// none of them repeats.
pub proof fn lemma_ids_strictly_increase(counters: Seq<IdCounter>, ids: Seq<u64>)
    requires
        counters.len() == ids.len() + 1,
        forall|k: int| 0 <= k < ids.len() ==> allocation(#[trigger] counters[k], ids[k], counters[k + 1]),
    ensures
        forall|i: int, j: int| 0 <= i < j < ids.len() ==> ids[i] < ids[j],
        ids.no_duplicates(),
{
    assert forall|i: int, j: int| 0 <= i < j < ids.len() implies ids[i] < ids[j] by {
        lemma_allocation_offsets(counters, ids, i);
        lemma_allocation_offsets(counters, ids, j);
    }
}

/// What a request holds, as plain values.
pub struct RequestView {
    pub jsonrpc: Seq<char>,
    pub id: u64,
    pub method: BitburnerMethod,
    /// Named parameters in order, when the method takes any.
    pub params: Option<Seq<(Seq<char>, Seq<char>)>>,
}

/// A request for the remote host to carry out one method.
pub struct Request {
    /// Version of JSON-RPC.
    pub jsonrpc: String,
    /// Request identifier.
    pub id: u64,
    /// Method that the request invokes.
    pub method: BitburnerMethod,
    /// Named string parameters in order, when the method takes any.
    pub params: Option<Vec<(String, String)>>,
}

/// Parameters as pairs of texts.
pub open spec fn params_view(ps: Seq<(String, String)>) -> Seq<(Seq<char>, Seq<char>)> {
    ps.map_values(|p: (String, String)| (p.0@, p.1@))
}

impl View for Request {
    type V = RequestView;

    open spec fn view(&self) -> RequestView {
        RequestView {
            jsonrpc: self.jsonrpc@,
            id: self.id,
            method: self.method,
            params: match self.params {
                Some(ps) => Some(params_view(ps@)),
                None => None,
            },
        }
    }
}

/// The request that lists the file names on the home server.
pub open spec fn file_names_request(id: u64) -> RequestView {
    RequestView {
        jsonrpc: "2.0"@,
        id,
        method: BitburnerMethod::GetFileNames,
        params: Some(seq![("server"@, "home"@)]),
    }
}

/// The request that fetches the API's definition file.
pub open spec fn definition_file_request(id: u64) -> RequestView {
    RequestView { jsonrpc: "2.0"@, id, method: BitburnerMethod::GetDefinitionFile, params: None }
}

/// The request that stores `content` as file `name` on the home server.
pub open spec fn push_file_request(id: u64, name: Seq<char>, content: Seq<char>) -> RequestView {
    RequestView {
        jsonrpc: "2.0"@,
        id,
        method: BitburnerMethod::PushFile,
        params: Some(seq![("server"@, "home"@), ("filename"@, name), ("content"@, content)]),
    }
}

/// The value of the first parameter named `key`.
pub open spec fn param_value(ps: Seq<(Seq<char>, Seq<char>)>, key: Seq<char>) -> Option<Seq<char>>
    decreases ps.len(),
{
    if ps.len() == 0 {
        None
    } else if ps[0].0 == key {
        Some(ps[0].1)
    } else {
        param_value(ps.drop_first(), key)
    }
}

/// One parameter as a JSON object member.
pub open spec fn member_json(p: (Seq<char>, Seq<char>)) -> Seq<char> {
    json_quoted(p.0) + ":"@ + json_quoted(p.1)
}

/// Parameters as JSON object members, separated by commas.
pub open spec fn members_json(ps: Seq<(Seq<char>, Seq<char>)>) -> Seq<char>
    decreases ps.len(),
{
    if ps.len() == 0 {
        Seq::empty()
    } else if ps.len() == 1 {
        member_json(ps[0])
    } else {
        members_json(ps.drop_last()) + ","@ + member_json(ps.last())
    }
}

/// The `params` member of a request object; nothing when there are none.
pub open spec fn params_json(params: Option<Seq<(Seq<char>, Seq<char>)>>) -> Seq<char> {
    match params {
        Some(ps) => ",\"params\":{"@ + members_json(ps) + "}"@,
        None => Seq::empty(),
    }
}

/// A request as a JSON object.
pub open spec fn request_json(r: RequestView) -> Seq<char> {
    "{\"jsonrpc\":"@ + json_quoted(r.jsonrpc) + ",\"id\":"@ + decimal(r.id as nat) + ",\"method\":"@
        + json_quoted(r.method.spec_wire_name()) + params_json(r.params) + "}"@
}

/// A pair of strings with the given texts.
fn param(key: &str, value: &str) -> (r: (String, String))
    ensures
        r.0@ == key@,
        r.1@ == value@,
{
    (String::from_str(key), String::from_str(value))
}

impl Request {
    /// Asks for the names of all files on the home server.
    pub fn get_file_names(ids: &mut IdCounter) -> (r: Request)
        requires
            old(ids).next < u64::MAX,
        ensures
            allocation(*old(ids), r.id, *final(ids)),
            r@ == file_names_request(r.id),
    {
        let mut params: Vec<(String, String)> = Vec::new();
        params.push(param("server", "home"));
        let id = ids.allocate();
        let r = Request { jsonrpc: String::from_str(JSONRPC_VERSION), id, method: BitburnerMethod::GetFileNames, params: Some(params) };
        assert(params_view(params@) =~= seq![("server"@, "home"@)]);
        r
    }

    /// Asks for the definition file of the API.
    pub fn get_definition_file(ids: &mut IdCounter) -> (r: Request)
        requires
            old(ids).next < u64::MAX,
        ensures
            allocation(*old(ids), r.id, *final(ids)),
            r@ == definition_file_request(r.id),
    {
        let id = ids.allocate();
        Request { jsonrpc: String::from_str(JSONRPC_VERSION), id, method: BitburnerMethod::GetDefinitionFile, params: None }
    }

    /// Asks to store `content` as the file `name` on the home server.
    pub fn push_file(ids: &mut IdCounter, name: &str, content: &str) -> (r: Request)
        requires
            old(ids).next < u64::MAX,
        ensures
            allocation(*old(ids), r.id, *final(ids)),
            r@ == push_file_request(r.id, name@, content@),
    {
        let mut params: Vec<(String, String)> = Vec::new();
        params.push(param("server", "home"));
        params.push(param("filename", name));
        params.push(param("content", content));
        let id = ids.allocate();
        let r = Request { jsonrpc: String::from_str(JSONRPC_VERSION), id, method: BitburnerMethod::PushFile, params: Some(params) };
        assert(params_view(params@) =~= seq![("server"@, "home"@), ("filename"@, name@), ("content"@, content@)]);
        r
    }

    /// A copy of the request.
    pub fn duplicate(&self) -> (r: Request)
        ensures
            r@ == self@,
    {
        let params = match &self.params {
            None => None,
            Some(ps) => {
                let mut out: Vec<(String, String)> = Vec::new();
                let mut i: usize = 0;
                while i < ps.len()
                    invariant
                        i <= ps@.len(),
                        out@ =~= ps@.take(i as int),
                    decreases ps@.len() - i,
                {
                    let p = &ps[i];
                    out.push((p.0.clone(), p.1.clone()));
                    i = i + 1;
                    assert(out@ =~= ps@.take(i as int));
                }
                assert(ps@.take(ps@.len() as int) =~= ps@);
                Some(out)
            },
        };
        Request { jsonrpc: self.jsonrpc.clone(), id: self.id, method: self.method, params }
    }

    /// The value of the first parameter named `key`.
    pub fn param(&self, key: &str) -> (r: Option<String>)
        ensures
            r matches Some(v) ==> self@.params.is_some() && param_value(self@.params.unwrap(), key@) == Some(v@),
            r is None ==> self@.params is None || param_value(self@.params.unwrap(), key@) is None,
    {
        match &self.params {
            None => None,
            Some(ps) => {
                let ghost all = params_view(ps@);
                let mut i: usize = 0;
                assert(all.subrange(0, all.len() as int) =~= all);
                while i < ps.len()
                    invariant
                        i <= ps@.len(),
                        all == params_view(ps@),
                        self@.params == Some(all),
                        param_value(all, key@) == param_value(all.subrange(i as int, all.len() as int), key@),
                    decreases ps@.len() - i,
                {
                    let ghost rest = all.subrange(i as int, all.len() as int);
                    assert(rest[0] == all[i as int]);
                    assert(all[i as int] == (ps@[i as int].0@, ps@[i as int].1@));
                    if text_eq(ps[i].0.as_str(), key) {
                        assert(rest.len() > 0 && rest[0].0 == key@);
                        assert(param_value(rest, key@) == Some(rest[0].1));
                        let v = ps[i].1.clone();
                        assert(v@ == rest[0].1);
                        return Some(v);
                    }
                    assert(rest.drop_first() =~= all.subrange(i + 1, all.len() as int));
                    i = i + 1;
                }
                None
            },
        }
    }

    /// The request as JSON text.
    pub fn to_json(&self) -> (r: String)
        ensures
            r@ == request_json(self@),
    {
        let mut s = String::from_str("{\"jsonrpc\":");
        let v = json_string(self.jsonrpc.as_str());
        s.append(v.as_str());
        s.append(",\"id\":");
        let n = decimal_text(self.id);
        s.append(n.as_str());
        s.append(",\"method\":");
        let m = json_string(self.method.wire_name());
        s.append(m.as_str());
        match &self.params {
            None => {},
            Some(ps) => {
                let ghost all = params_view(ps@);
                let ghost head = s@;
                s.append(",\"params\":{");
                let mut i: usize = 0;
                while i < ps.len()
                    invariant
                        i <= ps@.len(),
                        all == params_view(ps@),
                        s@ == head + ",\"params\":{"@ + members_json(all.take(i as int)),
                    decreases ps@.len() - i,
                {
                    let ghost before = s@;
                    if i > 0 {
                        s.append(",");
                    }
                    let k = json_string(ps[i].0.as_str());
                    s.append(k.as_str());
                    s.append(":");
                    let v = json_string(ps[i].1.as_str());
                    s.append(v.as_str());
                    proof {
                        let t = all.take(i + 1);
                        assert(t.drop_last() =~= all.take(i as int));
                        assert(t.last() == all[i as int]);
                        if i == 0 {
                            assert(t.len() == 1);
                        }
                    }
                    i = i + 1;
                }
                assert(all.take(all.len() as int) =~= all);
                s.append("}");
            },
        }
        s.append("}");
        s
    }
}

} // verus!
