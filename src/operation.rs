use vstd::prelude::*;
use vstd::string::*;

use crate::dispatch::{api_url, build_call, resource_url, trimmed, HttpCall, Method};
use crate::error::Error;
use crate::json::{
    absent, accepts_opt_bool, accepts_opt_obj, accepts_str, lookup_from, member, opt_bool,
    opt_bool_rep, opt_obj_rep, opt_object, push_member, req_string, str_rep, take_member, FromJson,
    Json, JsonSchema,
};

verus! {

/// The per-call timeout hint sent with each wait call.
pub const WAIT_TIMEOUT: &'static str = "1s";

/// The failure outcome of an operation.
#[derive(Debug)]
pub struct Status {
    /// The error code.
    pub code: i32,
    /// What went wrong, for a person to read.
    pub message: String,
    /// Untyped payloads with more detail.
    pub details: Option<Vec<Json>>,
}

/// A handle to a long-running task of the service.
///
/// Once `done` is true, one of `error` and `response` should be present;
/// `settle` takes the response where both are, and reports a protocol
/// violation where neither is.
#[derive(Debug)]
pub struct Operation {
    /// The unique name of the operation.
    pub name: String,
    /// Untyped progress of the task.
    pub metadata: Json,
    /// Whether the task is over; unknown when absent.
    pub done: Option<bool>,
    /// Why the task failed.
    pub error: Option<Status>,
    /// What the task produced.
    pub response: Option<Json>,
}

/// `m` is a status code that fits in `i32`.
pub open spec fn code_rep(m: Option<Json>, code: i32) -> bool {
    match m {
        Some(Json::UInt(n)) => n == code,
        Some(Json::NegInt(n)) => n < 0 && n == code,
        _ => false,
    }
}

/// `m` is an integer that fits in `i32`.
pub open spec fn accepts_code(m: Option<Json>) -> bool {
    match m {
        Some(Json::UInt(n)) => n <= i32::MAX,
        Some(Json::NegInt(n)) => i32::MIN <= n < 0,
        _ => false,
    }
}

/// `m` is an optional untyped payload: absent or `null` for `None`.
pub open spec fn opt_payload_rep(m: Option<Json>, v: Option<Json>) -> bool {
    match v {
        None => absent(m),
        Some(p) => m == Some(p) && p != Json::Null,
    }
}

impl JsonSchema for Status {
    open spec fn represents(j: Json, v: Status) -> bool {
        &&& j is Object
        &&& code_rep(member(j, "code"@), v.code)
        &&& str_rep(member(j, "message"@), v.message)
        &&& match v.details {
            None => absent(member(j, "details"@)),
            Some(d) => member(j, "details"@) matches Some(Json::Array(items)) && items@ == d@,
        }
    }
}

impl FromJson for Status {
    open spec fn accepts(j: Json) -> bool {
        &&& j is Object
        &&& accepts_code(member(j, "code"@))
        &&& accepts_str(member(j, "message"@))
        &&& (absent(member(j, "details"@)) || member(j, "details"@) matches Some(Json::Array(_)))
    }

    fn from_json(j: Json) -> (r: Option<Status>) {
        match j {
            Json::Object(fields) => Status::from_members(fields),
            _ => None,
        }
    }
}

impl Status {
    fn from_members(members: Vec<(String, Json)>) -> (r: Option<Status>)
        ensures
            r is Some == Status::accepts(Json::Object(members)),
            r is Some ==> Status::represents(Json::Object(members), r.unwrap()),
    {
        let ghost f0 = members@;
        let mut fields = members;
        proof {
            reveal_strlit("code");
            reveal_strlit("message");
            reveal_strlit("details");
        }
        assert("message"@ != "code"@ && "details"@ != "code"@ && "details"@ != "message"@) by {
            assert("message"@.len() != "code"@.len());
            assert("details"@.len() != "code"@.len());
            assert("details"@[0] != "message"@[0]);
        }
        let code_m = take_member(&mut fields, "code");
        let message_m = take_member(&mut fields, "message");
        let details_m = take_member(&mut fields, "details");
        assert(code_m == lookup_from(f0, "code"@, 0));
        assert(message_m == lookup_from(f0, "message"@, 0));
        assert(details_m == lookup_from(f0, "details"@, 0));
        let code = match code_m {
            Some(Json::UInt(n)) => {
                if n <= i32::MAX as u64 {
                    n as i32
                } else {
                    return None;
                }
            },
            Some(Json::NegInt(n)) => {
                if i32::MIN as i64 <= n && n < 0 {
                    n as i32
                } else {
                    return None;
                }
            },
            _ => {
                return None;
            },
        };
        let message = match req_string(message_m) {
            Some(s) => s,
            None => {
                return None;
            },
        };
        let details = match details_m {
            None => None,
            Some(Json::Null) => None,
            Some(Json::Array(items)) => Some(items),
            _ => {
                return None;
            },
        };
        Some(Status { code, message, details })
    }
}

impl JsonSchema for Operation {
    open spec fn represents(j: Json, v: Operation) -> bool {
        &&& j is Object
        &&& str_rep(member(j, "name"@), v.name)
        &&& member(j, "metadata"@) == Some(v.metadata)
        &&& opt_bool_rep(member(j, "done"@), v.done)
        &&& opt_obj_rep(member(j, "error"@), v.error)
        &&& opt_payload_rep(member(j, "response"@), v.response)
    }
}

impl FromJson for Operation {
    open spec fn accepts(j: Json) -> bool {
        &&& j is Object
        &&& accepts_str(member(j, "name"@))
        &&& member(j, "metadata"@) is Some
        &&& accepts_opt_bool(member(j, "done"@))
        &&& accepts_opt_obj::<Status>(member(j, "error"@))
    }

    fn from_json(j: Json) -> (r: Option<Operation>) {
        match j {
            Json::Object(fields) => Operation::from_members(fields),
            _ => None,
        }
    }
}

impl Operation {
    fn from_members(members: Vec<(String, Json)>) -> (r: Option<Operation>)
        ensures
            r is Some == Operation::accepts(Json::Object(members)),
            r is Some ==> Operation::represents(Json::Object(members), r.unwrap()),
    {
        let ghost f0 = members@;
        let mut fields = members;
        proof {
            reveal_strlit("name");
            reveal_strlit("metadata");
            reveal_strlit("done");
            reveal_strlit("error");
            reveal_strlit("response");
        }
        assert("metadata"@ != "name"@ && "done"@ != "name"@ && "done"@ != "metadata"@) by {
            assert("metadata"@.len() != "name"@.len());
            assert("done"@[0] != "name"@[0]);
            assert("done"@.len() != "metadata"@.len());
        }
        assert("error"@ != "name"@ && "error"@ != "metadata"@ && "error"@ != "done"@) by {
            assert("error"@.len() != "name"@.len());
            assert("error"@.len() != "metadata"@.len());
            assert("error"@.len() != "done"@.len());
        }
        assert("response"@ != "name"@ && "response"@ != "metadata"@ && "response"@ != "done"@
            && "response"@ != "error"@) by {
            assert("response"@.len() != "name"@.len());
            assert("response"@[0] != "metadata"@[0]);
            assert("response"@.len() != "done"@.len());
            assert("response"@.len() != "error"@.len());
        }
        let name_m = take_member(&mut fields, "name");
        let metadata_m = take_member(&mut fields, "metadata");
        let done_m = take_member(&mut fields, "done");
        let error_m = take_member(&mut fields, "error");
        let response_m = take_member(&mut fields, "response");
        assert(name_m == lookup_from(f0, "name"@, 0));
        assert(metadata_m == lookup_from(f0, "metadata"@, 0));
        assert(done_m == lookup_from(f0, "done"@, 0));
        assert(error_m == lookup_from(f0, "error"@, 0));
        assert(response_m == lookup_from(f0, "response"@, 0));
        let name = match req_string(name_m) {
            Some(s) => s,
            None => {
                return None;
            },
        };
        let metadata = match metadata_m {
            Some(m) => m,
            None => {
                return None;
            },
        };
        let done = match opt_bool(done_m) {
            Some(d) => d,
            None => {
                return None;
            },
        };
        let error = match opt_object::<Status>(error_m) {
            Some(e) => e,
            None => {
                return None;
            },
        };
        let response = match response_m {
            None => None,
            Some(Json::Null) => None,
            Some(p) => Some(p),
        };
        Some(Operation { name, metadata, done, error, response })
    }
}

/// `b` is the body of a wait call: `{"timeout": WAIT_TIMEOUT}`.
pub open spec fn is_wait_body(b: Json) -> bool {
    match b {
        Json::Object(f) => f@.len() == 1 && f@[0].0@ == "timeout"@ && match f@[0].1 {
            Json::Str(t) => t@ == WAIT_TIMEOUT@,
            _ => false,
        },
        _ => false,
    }
}

/// `c` is the wait call on the operation `name`, authorized by `token`.
pub open spec fn is_wait_call(c: HttpCall, name: Seq<char>, token: Seq<char>) -> bool {
    &&& c.method == Method::Post
    &&& c.url@ == api_url(name + ":wait"@)
    &&& c.json_content_type
    &&& c.authorization@ == "Bearer "@ + trimmed(token)
    &&& c.body is Some && is_wait_body(c.body.unwrap())
    &&& c.expects_body
}

/// The call that waits, for at most `WAIT_TIMEOUT`, until the operation `name` is done.
pub fn wait_operation(name: &str, access_token: &str) -> (r: HttpCall)
    ensures
        is_wait_call(r, name@, access_token@),
{
    let mut fields: Vec<(String, Json)> = Vec::new();
    push_member(&mut fields, "timeout", Json::Str(String::from_str(WAIT_TIMEOUT)));
    build_call(Method::Post, resource_url(name, ":wait"), access_token, Some(Json::Object(fields)), true)
}

/// The error message for the operation `name` that is done with neither a
/// response nor an error.
pub open spec fn violation_message(name: Seq<char>) -> Seq<char> {
    "wait_operation should return one of response or error: "@ + name
}

/// What an operation that reports itself done resolves to: its response,
/// else its error status; with neither it breaks the protocol.
/// `None` while it is not done.
pub fn settle(op: Operation) -> (r: Option<Result<Result<Json, Status>, Error>>)
    ensures
        r is None == (op.done != Some(true)),
        op.done == Some(true) && op.response is Some ==> r == Some(
            Ok::<Result<Json, Status>, Error>(Ok(op.response.unwrap())),
        ),
        op.done == Some(true) && op.response is None && op.error is Some ==> r == Some(
            Ok::<Result<Json, Status>, Error>(Err(op.error.unwrap())),
        ),
        op.done == Some(true) && op.response is None && op.error is None ==> (r matches Some(
            Err(Error::Other(m)),
        ) && m@ == violation_message(op.name@)),
{
    match op.done {
        Some(true) => match op.response {
            Some(response) => Some(Ok(Ok(response))),
            None => match op.error {
                Some(status) => Some(Ok(Err(status))),
                None => {
                    let mut message = String::from_str(
                        "wait_operation should return one of response or error: ",
                    );
                    message.append(op.name.as_str());
                    Some(Err(Error::Other(message)))
                },
            },
        },
        _ => None,
    }
}

/// What the poll does next.
#[derive(Debug)]
pub enum PollAction {
    /// Send this wait call and hand its answer back.
    Wait(HttpCall),
    /// The operation is done: its response, or its error status.
    Finished(Result<Json, Status>),
    /// The poll stops on this error.
    Failed(Error),
}

/// The poll of one operation until it is done.
pub struct WaitLoop {
    pub name: String,
    pub access_token: String,
    pub finished: bool,
    /// The wait calls issued so far.
    pub calls: Ghost<nat>,
}

/// Whether an answer to a wait call ends the poll.
pub open spec fn is_terminal(reply: Result<Operation, Error>) -> bool {
    match reply {
        Ok(op) => op.done == Some(true),
        Err(_) => true,
    }
}

/// Whether the poll has finished, and the wait calls issued, after one more
/// answer: an answer that is not terminal is followed by exactly one more call.
pub open spec fn next_poll(calls: nat, terminal: bool) -> (bool, nat) {
    if terminal {
        (true, calls)
    } else {
        (false, calls + 1)
    }
}

/// The state of a poll that has issued `calls` wait calls, after the answers
/// whose terminality is `terminals`; answers after the first terminal one are never asked for.
pub open spec fn poll_run(calls: nat, terminals: Seq<bool>) -> (bool, nat)
    decreases terminals.len(),
{
    if terminals.len() == 0 {
        (false, calls)
    } else {
        let (finished, c) = next_poll(calls, terminals[0]);
        if finished {
            (finished, c)
        } else {
            poll_run(c, terminals.drop_first())
        }
    }
}

/// A poll that receives `k` answers that are not done, then one that is,
/// stops there, having issued exactly `k + 1` wait calls; after the first
/// `k` answers alone it is still running, with `k + 1` calls issued.
pub proof fn lemma_wait_calls(k: nat)
    ensures
        poll_run(1, Seq::new(k, |i: int| false).push(true)) == (true, k + 1),
        poll_run(1, Seq::new(k, |i: int| false)) == (false, k + 1),
{
    lemma_wait_calls_from(1, k);
}

proof fn lemma_wait_calls_from(c: nat, k: nat)
    ensures
        poll_run(c, Seq::new(k, |i: int| false).push(true)) == (true, c + k),
        poll_run(c, Seq::new(k, |i: int| false)) == (false, c + k),
    decreases k,
{
    if k > 0 {
        lemma_wait_calls_from(c + 1, (k - 1) as nat);
        assert(Seq::new(k, |i: int| false).push(true).drop_first() =~= Seq::new(
            (k - 1) as nat,
            |i: int| false,
        ).push(true));
        assert(Seq::new(k, |i: int| false).drop_first() =~= Seq::new((k - 1) as nat, |i: int| false));
    } else {
        assert(Seq::new(k, |i: int| false).push(true) =~= seq![true]);
        assert(Seq::new(k, |i: int| false) =~= Seq::<bool>::empty());
    }
}

/// Whether each answer, in order, ends the poll.
pub open spec fn terminals_of(answers: Seq<Result<Operation, Error>>) -> Seq<bool> {
    answers.map_values(|a: Result<Operation, Error>| is_terminal(a))
}

proof fn lemma_poll_run_first_terminal(c: nat, terminals: Seq<bool>, k: int)
    requires
        0 <= k < terminals.len(),
        terminals[k],
        forall|i: int| 0 <= i < k ==> !terminals[i],
    ensures
        poll_run(c, terminals) == (true, (c + k) as nat),
        poll_run(c, terminals.take(k)) == (false, (c + k) as nat),
    decreases k,
{
    if k > 0 {
        assert(terminals.drop_first()[k - 1] == terminals[k]);
        assert forall|i: int| 0 <= i < k - 1 implies !terminals.drop_first()[i] by {
            assert(terminals.drop_first()[i] == terminals[i + 1]);
        }
        lemma_poll_run_first_terminal((c + 1) as nat, terminals.drop_first(), k - 1);
        assert(terminals.take(k).drop_first() =~= terminals.drop_first().take(k - 1));
        assert(terminals.take(k)[0] == terminals[0]);
    } else {
        assert(terminals.take(0) =~= Seq::<bool>::empty());
    }
}

/// A poll whose answers, in order, are `answers`, with the first terminal
/// one (done, or a failed call) at index `k`: it stops at that answer, having
/// issued exactly `k + 1` wait calls, whatever answers would follow; after
/// the `k` answers before it, it is still running with `k + 1` calls issued.
/// The outcome is then the one `WaitLoop::on_reply` gives for `answers[k]`
/// alone, since every earlier answer only led to one more wait call.
pub proof fn lemma_poll_stops_at_first_terminal(answers: Seq<Result<Operation, Error>>, k: int)
    requires
        0 <= k < answers.len(),
        is_terminal(answers[k]),
        forall|i: int| 0 <= i < k ==> !is_terminal(#[trigger] answers[i]),
    ensures
        poll_run(1, terminals_of(answers)) == (true, (k + 1) as nat),
        poll_run(1, terminals_of(answers)) == poll_run(1, terminals_of(answers.take(k + 1))),
        poll_run(1, terminals_of(answers.take(k))) == (false, (k + 1) as nat),
{
    let t = terminals_of(answers);
    assert forall|i: int| 0 <= i < k implies !t[i] by {
        assert(t[i] == is_terminal(answers[i]));
    }
    lemma_poll_run_first_terminal(1, t, k);
    let t1 = terminals_of(answers.take(k + 1));
    assert forall|i: int| 0 <= i < k implies !t1[i] by {
        assert(t1[i] == is_terminal(answers[i]));
    }
    assert(t1[k] == is_terminal(answers[k]));
    lemma_poll_run_first_terminal(1, t1, k);
    assert(terminals_of(answers.take(k)) =~= t.take(k));
}

impl Operation {
    /// Begins waiting until this operation is done: the poll, and the first
    /// wait call it issues.
    pub fn wait_util_done(&self, access_token: &str) -> (r: (WaitLoop, HttpCall))
        ensures
            r.0.name@ == self.name@,
            r.0.access_token@ == access_token@,
            !r.0.finished,
            r.0.calls@ == 1,
            is_wait_call(r.1, self.name@, access_token@),
    {
        let call = wait_operation(self.name.as_str(), access_token);
        let poll = WaitLoop {
            name: self.name.clone(),
            access_token: String::from_str(access_token),
            finished: false,
            calls: Ghost(1),
        };
        (poll, call)
    }
}

impl WaitLoop {
    /// Takes the answer to the last wait call. While the operation is not
    /// done, issues exactly one more wait call; once it is done, or the call
    /// failed, finishes with its outcome and issues no more calls.
    pub fn on_reply(&mut self, reply: Result<Operation, Error>) -> (r: PollAction)
        requires
            !old(self).finished,
        ensures
            final(self).name == old(self).name,
            final(self).access_token == old(self).access_token,
            (final(self).finished, final(self).calls@) == next_poll(old(self).calls@, is_terminal(reply)),
            r is Wait == !is_terminal(reply),
            r is Wait ==> is_wait_call(r->Wait_0, old(self).name@, old(self).access_token@),
            match reply {
                Err(e) => r == PollAction::Failed(e),
                Ok(op) => {
                    &&& op.done == Some(true) && op.response is Some ==> r == PollAction::Finished(
                        Ok(op.response.unwrap()),
                    )
                    &&& op.done == Some(true) && op.response is None && op.error is Some ==> r
                        == PollAction::Finished(Err(op.error.unwrap()))
                    &&& op.done == Some(true) && op.response is None && op.error is None ==> (r
                        matches PollAction::Failed(Error::Other(m)) && m@ == violation_message(op.name@))
                },
            },
    {
        match reply {
            Err(e) => {
                self.finished = true;
                PollAction::Failed(e)
            },
            Ok(op) => match settle(op) {
                None => {
                    self.calls = Ghost(self.calls@ + 1);
                    PollAction::Wait(wait_operation(self.name.as_str(), self.access_token.as_str()))
                },
                Some(Ok(outcome)) => {
                    self.finished = true;
                    PollAction::Finished(outcome)
                },
                Some(Err(e)) => {
                    self.finished = true;
                    PollAction::Failed(e)
                },
            },
        }
    }
}

} // verus!
