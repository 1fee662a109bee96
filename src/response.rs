//! Answers of the remote host: correlation with the pending requests and
//! rendering.
use vstd::prelude::*;
use crate::method::BitburnerMethod;
use crate::request::param_value;
use crate::table::{resumes, PendingEntry, RequestTable};
use crate::text::opt_text;

verus! {

/// An answer of the remote host, in one of its two shapes.
pub enum Response {
    /// An answer whose result, if any, is one text.
    StringResponse { id: u64, result: Option<String>, error: Option<String> },
    /// An answer whose result, if any, is a list of texts.
    VecResponse { id: u64, result: Option<Vec<String>>, error: Option<String> },
}

/// The result an answer carries.
pub enum Payload {
    Text(String),
    Names(Vec<String>),
}

/// What became of one answer.
pub enum Outcome {
    /// No request with this identifier is pending: it was never sent, or was
    /// answered before.
    UnknownId { id: u64 },
    /// The answer carries neither a result nor an error.
    Empty { id: u64, method: BitburnerMethod },
    /// The answer to a pending request. `filename` is the file that a push
    /// request named.
    Answered {
        id: u64,
        method: BitburnerMethod,
        filename: Option<String>,
        result: Option<Payload>,
        error: Option<String>,
    },
}

/// An outcome, and whether the prompt may go on.
pub struct Processed {
    pub outcome: Outcome,
    pub resume: bool,
}

impl Response {
    pub open spec fn spec_id(self) -> u64 {
        match self {
            Response::StringResponse { id, .. } => id,
            Response::VecResponse { id, .. } => id,
        }
    }

    pub open spec fn spec_error(self) -> Option<String> {
        match self {
            Response::StringResponse { error, .. } => error,
            Response::VecResponse { error, .. } => error,
        }
    }

    pub open spec fn spec_payload(self) -> Option<Payload> {
        match self {
            Response::StringResponse { result, .. } => match result {
                Some(t) => Some(Payload::Text(t)),
                None => None,
            },
            Response::VecResponse { result, .. } => match result {
                Some(v) => Some(Payload::Names(v)),
                None => None,
            },
        }
    }

    /// The identifier of the request answered.
    pub fn id(&self) -> (r: u64)
        ensures
            r == self.spec_id(),
    {
        match self {
            Response::StringResponse { id, .. } => *id,
            Response::VecResponse { id, .. } => *id,
        }
    }
}

/// The file a pending push request names.
pub open spec fn pushed_filename(e: PendingEntry) -> Option<Seq<char>> {
    if e.method == BitburnerMethod::PushFile && e.request@.params is Some {
        param_value(e.request@.params.unwrap(), "filename"@)
    } else {
        None
    }
}

/// `outcome` is what an answer `response` comes to, given the pending
/// requests `m`: an unknown identifier, an answer with nothing in it, or
/// the result and error with the operation and, for a push, the file.
pub open spec fn outcome_of(m: Map<u64, PendingEntry>, response: Response, outcome: Outcome) -> bool {
    match outcome {
        Outcome::UnknownId { id } => id == response.spec_id() && !m.contains_key(id),
        Outcome::Empty { id, method } => {
            &&& id == response.spec_id()
            &&& m.contains_key(id)
            &&& method == m[id].method
            &&& response.spec_payload() is None
            &&& response.spec_error() is None
        },
        Outcome::Answered { id, method, filename, result, error } => {
            &&& id == response.spec_id()
            &&& m.contains_key(id)
            &&& method == m[id].method
            &&& opt_text(filename) == pushed_filename(m[id])
            &&& result == response.spec_payload()
            &&& error == response.spec_error()
            &&& (result is Some || error is Some)
        },
    }
}

/// Matches `response` with its pending request, which it removes from the
/// table. The prompt may go on when this answer left the table empty.
pub fn process_response(response: Response, request_map: &mut RequestTable) -> (r: Processed)
    ensures
        final(request_map)@ == old(request_map)@.remove(response.spec_id()),
        !old(request_map)@.contains_key(response.spec_id()) ==> final(request_map)@ == old(request_map)@,
        r.resume == resumes(old(request_map)@, response.spec_id()),
        outcome_of(old(request_map)@, response, r.outcome),
{
    let id = response.id();
    let entry = request_map.resolve(id);
    proof {
        assert(old(request_map)@.contains_key(id) ==> final(request_map)@ == old(request_map)@.remove(id));
        if !old(request_map)@.contains_key(id) {
            assert(old(request_map)@.remove(id) =~= old(request_map)@);
        }
    }
    let resume = entry.is_some() && request_map.is_empty();
    match entry {
        None => Processed { outcome: Outcome::UnknownId { id }, resume },
        Some(e) => {
            let (result, error) = match response {
                Response::StringResponse { result, error, .. } => (
                    match result {
                        Some(t) => Some(Payload::Text(t)),
                        None => None,
                    },
                    error,
                ),
                Response::VecResponse { result, error, .. } => (
                    match result {
                        Some(v) => Some(Payload::Names(v)),
                        None => None,
                    },
                    error,
                ),
            };
            if result.is_none() && error.is_none() {
                return Processed { outcome: Outcome::Empty { id, method: e.method }, resume };
            }
            let filename = if e.method == BitburnerMethod::PushFile {
                e.request.param("filename")
            } else {
                None
            };
            Processed {
                outcome: Outcome::Answered { id, method: e.method, filename, result, error },
                resume,
            }
        },
    }
}

/// Texts on lines of their own.
pub open spec fn joined_lines(ns: Seq<Seq<char>>) -> Seq<char>
    decreases ns.len(),
{
    if ns.len() == 0 {
        Seq::empty()
    } else if ns.len() == 1 {
        ns[0]
    } else {
        joined_lines(ns.drop_last()) + "\n"@ + ns.last()
    }
}

/// The texts of a list of strings.
pub open spec fn texts(v: Seq<String>) -> Seq<Seq<char>> {
    v.map_values(|s: String| s@)
}

/// How a result is shown: a pushed file as `<file>: <confirmation>`, any
/// other text as it is, a list one item per line.
pub open spec fn result_line(method: BitburnerMethod, filename: Option<Seq<char>>, p: Payload) -> Seq<char> {
    match p {
        Payload::Text(t) => if method == BitburnerMethod::PushFile && filename is Some {
            filename.unwrap() + ": "@ + t@
        } else {
            t@
        },
        Payload::Names(v) => joined_lines(texts(v@)),
    }
}

/// How a failure reported by the remote host is shown, with the operation
/// and, for a push, the file.
pub open spec fn error_line(method: BitburnerMethod, filename: Option<Seq<char>>, e: Seq<char>) -> Seq<char> {
    match filename {
        Some(f) => method.spec_wire_name() + " failed for "@ + f + ": "@ + e,
        None => method.spec_wire_name() + " failed: "@ + e,
    }
}

/// Texts on lines of their own.
pub fn join_lines(v: &Vec<String>) -> (r: String)
    ensures
        r@ == joined_lines(texts(v@)),
{
    let ghost all = texts(v@);
    let mut s = String::new();
    let mut i: usize = 0;
    while i < v.len()
        invariant
            i <= v@.len(),
            all == texts(v@),
            s@ == joined_lines(all.take(i as int)),
        decreases v@.len() - i,
    {
        if i > 0 {
            s.append("\n");
        }
        s.append(v[i].as_str());
        proof {
            let t = all.take(i + 1);
            assert(t.drop_last() =~= all.take(i as int));
            assert(t.last() == all[i as int]);
            if i == 0 {
                assert(s@ =~= t[0]);
            }
        }
        i = i + 1;
    }
    assert(all.take(all.len() as int) =~= all);
    s
}

impl Outcome {
    /// The text that shows the result of an answered request; `None` when
    /// there is no result.
    pub fn result_text(&self) -> (r: Option<String>)
        ensures
            match *self {
                Outcome::Answered { method, filename, result: Some(p), .. } => r matches Some(t) && t@
                    == result_line(method, opt_text(filename), p),
                _ => r is None,
            },
    {
        match self {
            Outcome::Answered { method, filename, result: Some(p), .. } => match p {
                Payload::Text(t) => {
                    if *method == BitburnerMethod::PushFile {
                        match filename {
                            Some(f) => {
                                let mut s = f.clone();
                                s.append(": ");
                                s.append(t.as_str());
                                Some(s)
                            },
                            None => Some(t.clone()),
                        }
                    } else {
                        Some(t.clone())
                    }
                },
                Payload::Names(v) => Some(join_lines(v)),
            },
            _ => None,
        }
    }

    /// The text that shows a failure the remote host reported; `None` when
    /// it reported none.
    pub fn error_text(&self) -> (r: Option<String>)
        ensures
            match *self {
                Outcome::Answered { method, filename, error: Some(e), .. } => r matches Some(t) && t@
                    == error_line(method, opt_text(filename), e@),
                _ => r is None,
            },
    {
        match self {
            Outcome::Answered { method, filename, error: Some(e), .. } => {
                let mut s = String::from_str(method.wire_name());
                match filename {
                    Some(f) => {
                        s.append(" failed for ");
                        s.append(f.as_str());
                        s.append(": ");
                    },
                    None => {
                        s.append(" failed: ");
                    },
                }
                s.append(e.as_str());
                Some(s)
            },
            _ => None,
        }
    }
}

} // verus!
