//! What a worker says to its manager: results, errors and registrations.
//!
//! The requests themselves are sent outside. This module says where they go, what
//! they carry, and what an answer means.

use std::collections::BTreeMap;

use vstd::prelude::*;
use vstd::string::*;

use crate::context::ProofContext;
use crate::json::{
    json_error, json_member, json_number, json_value, member, parse_json, unsigned_number,
};
use crate::program::ProgramRef;
use crate::requests::{RegisterWorkerRequest, WorkerRole};
use crate::results::{ErrorResult, ProofResult, ResultPayload};
use crate::text::{trim_end_matches, without_trailing};

verus! {

/// How long a request to the manager may take, in seconds.
pub const MANAGER_TIMEOUT_SECS: u64 = 30;

/// How long it may take to connect to the manager, in seconds.
pub const MANAGER_CONNECT_TIMEOUT_SECS: u64 = 10;

/// The step named in an error report, where none is known.
pub const UNKNOWN_STEP: &'static str = "unknown";

/// Whether an HTTP status says that a request succeeded.
pub open spec fn succeeds(status: u16) -> bool {
    200 <= status <= 299
}

/// A worker's side of the conversation with its manager.
pub struct ResultClient {
    /// Base URL of the manager, without a slash at its end.
    pub manager_url: String,
    pub worker_id: usize,
}

impl ResultClient {
    /// Address a manager. Slashes at the end of its URL are dropped.
    pub fn new(manager_url: &str, worker_id: usize) -> (r: Self)
        ensures
            r.manager_url@ == without_trailing(manager_url@, '/'),
            r.worker_id == worker_id,
    {
        ResultClient { manager_url: trim_end_matches(manager_url, '/').to_owned(), worker_id }
    }

    /// Get the worker ID.
    pub fn worker_id(&self) -> (r: usize)
        ensures
            r == self.worker_id,
    {
        self.worker_id
    }

    fn url(&self, endpoint: &str) -> (r: String)
        ensures
            r@ == self.manager_url@ + endpoint@,
    {
        let mut out = self.manager_url.clone();
        out.append(endpoint);
        out
    }

    /// Where results and errors are posted.
    pub fn result_url(&self) -> (r: String)
        ensures
            r@ == self.manager_url@ + "/proof_result"@,
    {
        self.url("/proof_result")
    }

    /// Where the worker registers.
    pub fn register_url(&self) -> (r: String)
        ensures
            r@ == self.manager_url@ + "/register_worker"@,
    {
        self.url("/register_worker")
    }

    /// Where the manager is asked whether it is well.
    pub fn health_url(&self) -> (r: String)
        ensures
            r@ == self.manager_url@ + "/healthz"@,
    {
        self.url("/healthz")
    }

    /// What is posted for a result.
    pub fn result_payload(&self, proof_uuid: &str, result: ProofResult) -> (r: ResultPayload)
        ensures
            r.worker_id == self.worker_id,
            r.proof_uuid@ == proof_uuid@,
            r.result == result,
    {
        ResultPayload { worker_id: self.worker_id, proof_uuid: proof_uuid.to_owned(), result }
    }

    /// What is posted for several results: one payload each, in their order. The
    /// first that the manager refuses ends the submission.
    pub fn result_payloads(&self, proof_uuid: &str, results: Vec<ProofResult>) -> (r: Vec<
        ResultPayload,
    >)
        ensures
            r@.len() == results@.len(),
            forall|i: int|
                0 <= i < r@.len() ==> (#[trigger] r@[i]).result == results@[i] && r@[i].worker_id
                    == self.worker_id && r@[i].proof_uuid@ == proof_uuid@,
    {
        let ghost all = results@;
        let mut rest = results;
        let mut out: Vec<ResultPayload> = Vec::new();
        assert(all.skip(0) =~= all);
        while rest.len() > 0
            invariant
                out@.len() <= all.len(),
                rest@ == all.skip(out@.len() as int),
                forall|i: int|
                    0 <= i < out@.len() ==> (#[trigger] out@[i]).result == all[i]
                        && out@[i].worker_id == self.worker_id && out@[i].proof_uuid@
                        == proof_uuid@,
            decreases rest@.len(),
        {
            let ghost k = out@.len() as int;
            let result = rest.remove(0);
            assert(result == all[k]);
            assert(rest@ =~= all.skip(k + 1));
            out.push(self.result_payload(proof_uuid, result));
        }
        out
    }

    /// What is posted for an error. The manager routes it by the uuid alone, so the
    /// rest of the context is left empty.
    pub fn error_payload(&self, proof_uuid: &str, error_msg: &str) -> (r: ResultPayload)
        ensures
            r.worker_id == self.worker_id,
            r.proof_uuid@ == proof_uuid@,
            r.result matches ProofResult::Error(e) && {
                &&& e.context.proof_uuid@ == proof_uuid@
                &&& e.context.program.id() == (""@, 0u32)
                &&& e.context.labels@ == Map::<String, String>::empty()
                &&& e.context.proof_type == crate::context::ProofType::Stark
                &&& e.step@ == UNKNOWN_STEP@
                &&& e.error@ == error_msg@
            },
    {
        let context = ProofContext::new(
            proof_uuid.to_owned(),
            ProgramRef::new("", 0),
            BTreeMap::new(),
        );
        let result = ProofResult::Error(
            ErrorResult {
                context,
                step: UNKNOWN_STEP.to_owned(),
                error: error_msg.to_owned(),
            },
        );
        self.result_payload(proof_uuid, result)
    }
}

fn refused(what: &str, status: &str, body: &str) -> (r: String)
    ensures
        r@ == what@ + ": status="@ + status@ + ", body="@ + body@,
{
    let mut out = what.to_owned();
    out.append(": status=");
    out.append(status);
    out.append(", body=");
    out.append(body);
    out
}

/// An answer of the manager: its status as a number and as shown, and its text.
pub struct Answer {
    pub status: u16,
    pub shown: String,
    pub body: String,
}

/// What the answer to a posted result means.
pub fn result_submitted(answer: &Answer) -> (r: Result<(), String>)
    ensures
        succeeds(answer.status) ==> r is Ok,
        !succeeds(answer.status) ==> r is Err && r->Err_0@ == "Failed to submit result"@
            + ": status="@ + answer.shown@ + ", body="@ + answer.body@,
{
    if 200 <= answer.status && answer.status <= 299 {
        return Ok(());
    }
    Err(refused("Failed to submit result", answer.shown.as_str(), answer.body.as_str()))
}

/// What the answer to a posted error means.
pub fn error_submitted(answer: &Answer) -> (r: Result<(), String>)
    ensures
        succeeds(answer.status) ==> r is Ok,
        !succeeds(answer.status) ==> r is Err && r->Err_0@ == "Failed to submit error"@
            + ": status="@ + answer.shown@ + ", body="@ + answer.body@,
{
    if 200 <= answer.status && answer.status <= 299 {
        return Ok(());
    }
    Err(refused("Failed to submit error", answer.shown.as_str(), answer.body.as_str()))
}

/// What the answer to a registration means, before its ID is read.
pub fn registration_answered(answer: &Answer) -> (r: Result<(), String>)
    ensures
        succeeds(answer.status) ==> r is Ok,
        !succeeds(answer.status) ==> r is Err && r->Err_0@ == "Failed to register"@ + ": status="@
            + answer.shown@ + ", body="@ + answer.body@,
{
    if 200 <= answer.status && answer.status <= 299 {
        return Ok(());
    }
    Err(refused("Failed to register", answer.shown.as_str(), answer.body.as_str()))
}

/// The worker ID that a manager confirmed, from the number in its answer.
pub fn worker_id_from(number: Option<u64>) -> (r: Result<usize, String>)
    ensures
        number matches Some(n) ==> r == Ok::<usize, String>(n as usize),
        number is None ==> r is Err && r->Err_0@ == "Missing worker_id in registration response"@,
{
    match number {
        Some(n) => Ok(
            #[verifier::truncate]
            (n as usize),
        ),
        None => Err("Missing worker_id in registration response".to_owned()),
    }
}

/// The number under `worker_id` in the answer to a registration, if there is one.
pub open spec fn confirmed_number(body: serde_json::Value) -> Option<u64> {
    match json_member(body, "worker_id"@) {
        Some(v) => json_number(v),
        None => None,
    }
}

/// The worker ID that a manager confirmed.
pub fn confirmed_worker_id(body: &serde_json::Value) -> (r: Result<usize, String>)
    ensures
        confirmed_number(*body) matches Some(n) ==> r == Ok::<usize, String>(n as usize),
        confirmed_number(*body) is None ==> r is Err && r->Err_0@
            == "Missing worker_id in registration response"@,
{
    let number = match member(body, "worker_id") {
        Some(v) => unsigned_number(v),
        None => None,
    };
    worker_id_from(number)
}

/// The worker ID in the text of a manager's answer, or what is said of a text that is
/// no JSON.
pub fn read_confirmed_worker_id(body: &str) -> (r: Result<usize, String>)
    ensures
        match json_value(body@) {
            None => r is Err && r->Err_0@ == json_error(body@),
            Some(value) => match confirmed_number(value) {
                Some(n) => r == Ok::<usize, String>(n as usize),
                None => r is Err && r->Err_0@ == "Missing worker_id in registration response"@,
            },
        },
{
    match parse_json(body) {
        Ok(value) => confirmed_worker_id(&value),
        Err(e) => Err(e),
    }
}

/// What a worker registers with.
pub fn registration_request(
    worker_url: &str,
    worker_id: usize,
    max_app_provers: usize,
    max_leaf_provers: usize,
    max_internal_provers: usize,
    loaded_programs: Vec<ProgramRef>,
    worker_role: WorkerRole,
) -> (r: RegisterWorkerRequest)
    ensures
        r.worker_url@ == worker_url@,
        r.worker_id == worker_id,
        r.max_app_provers == max_app_provers,
        r.max_leaf_provers == max_leaf_provers,
        r.max_internal_provers == max_internal_provers,
        r.loaded_programs == loaded_programs,
        r.worker_role == worker_role,
{
    RegisterWorkerRequest {
        worker_url: worker_url.to_owned(),
        worker_id,
        max_app_provers,
        max_leaf_provers,
        max_internal_provers,
        loaded_programs,
        worker_role,
    }
}

/// However many slashes end the configured URL, an endpoint is joined to it by one
/// slash: what is left of the URL does not end in one, and is unchanged otherwise.
pub proof fn manager_url_never_ends_in_a_slash(url: Seq<char>)
    ensures
        ({
            let base = without_trailing(url, '/');
            &&& base.len() > 0 ==> base.last() != '/'
            &&& base.len() <= url.len()
            &&& base == url.take(base.len() as int)
            &&& forall|i: int| base.len() <= i < url.len() ==> #[trigger] url[i] == '/'
        }),
    decreases url.len(),
{
    if url.len() > 0 && url.last() == '/' {
        manager_url_never_ends_in_a_slash(url.drop_last());
        let base = without_trailing(url, '/');
        assert(url.drop_last().take(base.len() as int) =~= url.take(base.len() as int));
        assert forall|i: int| base.len() <= i < url.len() implies #[trigger] url[i] == '/' by {
            if i < url.len() - 1 {
                assert(url.drop_last()[i] == url[i]);
            }
        }
    } else {
        assert(url.take(url.len() as int) =~= url);
    }
}

/// A post to the manager went well exactly if the status of the answer is in the two
/// hundreds, whatever was posted.
pub proof fn only_two_hundreds_are_success(
    answer: &Answer,
    result: Result<(), String>,
    error: Result<(), String>,
    registration: Result<(), String>,
)
    requires
        call_ensures(result_submitted, (answer,), result),
        call_ensures(error_submitted, (answer,), error),
        call_ensures(registration_answered, (answer,), registration),
    ensures
        result is Ok <==> 200 <= answer.status < 300,
        error is Ok <==> 200 <= answer.status < 300,
        registration is Ok <==> 200 <= answer.status < 300,
        result is Err ==> result->Err_0@ == "Failed to submit result"@ + ": status="@
            + answer.shown@ + ", body="@ + answer.body@,
        error is Err ==> error->Err_0@ == "Failed to submit error"@ + ": status="@ + answer.shown@
            + ", body="@ + answer.body@,
        registration is Err ==> registration->Err_0@ == "Failed to register"@ + ": status="@
            + answer.shown@ + ", body="@ + answer.body@,
{
}

/// With any number of slashes at the end of the manager's URL, the endpoints are the same:
/// each is joined to what stands before the slashes by one.
pub proof fn endpoints_are_joined_by_one_slash(
    url: &str,
    worker_id: usize,
    client: ResultClient,
    base: Seq<char>,
    result_url: String,
    register_url: String,
    health_url: String,
)
    requires
        call_ensures(ResultClient::new, (url, worker_id), client),
        call_ensures(ResultClient::result_url, (&client,), result_url),
        call_ensures(ResultClient::register_url, (&client,), register_url),
        call_ensures(ResultClient::health_url, (&client,), health_url),
        base.len() <= url@.len(),
        base == url@.take(base.len() as int),
        base.len() > 0 ==> base.last() != '/',
        forall|i: int| base.len() <= i < url@.len() ==> #[trigger] url@[i] == '/',
    ensures
        result_url@ == base + "/proof_result"@,
        register_url@ == base + "/register_worker"@,
        health_url@ == base + "/healthz"@,
        client.worker_id == worker_id,
{
    manager_url_never_ends_in_a_slash(url@);
    let kept = without_trailing(url@, '/');
    if kept.len() < base.len() {
        assert(url@[base.len() - 1] == '/');
    }
    if kept.len() > base.len() {
        assert(url@[kept.len() - 1] == '/');
    }
    assert(kept =~= base);
}

/// The results of a proof are posted one by one, in order, each with the worker and the
/// uuid.
pub proof fn results_are_posted_in_order(
    client: &ResultClient,
    proof_uuid: &str,
    results: Vec<ProofResult>,
    r: Vec<ResultPayload>,
)
    requires
        call_ensures(ResultClient::result_payloads, (client, proof_uuid, results), r),
    ensures
        r@.len() == results@.len(),
        forall|i: int|
            0 <= i < r@.len() ==> (#[trigger] r@[i]).result == results@[i] && r@[i].worker_id
                == client.worker_id && r@[i].proof_uuid@ == proof_uuid@,
{
}

/// The ID that a manager confirmed is the number under `worker_id`; an answer without one
/// confirms none.
pub proof fn confirmed_ids_are_read(body: &serde_json::Value, r: Result<usize, String>)
    requires
        call_ensures(confirmed_worker_id, (body,), r),
    ensures
        r is Ok <==> json_member(*body, "worker_id"@) is Some && json_number(
            json_member(*body, "worker_id"@)->0,
        ) is Some,
        r is Ok ==> r->Ok_0 == json_number(json_member(*body, "worker_id"@)->0)->0 as usize,
        r is Err ==> r->Err_0@ == "Missing worker_id in registration response"@,
{
}

/// A failure is posted as an error of its proof, with its text and without a known step,
/// by the worker that saw it.
pub proof fn failures_are_posted_by_their_proof(
    client: &ResultClient,
    proof_uuid: &str,
    error_msg: &str,
    r: ResultPayload,
)
    requires
        call_ensures(ResultClient::error_payload, (client, proof_uuid, error_msg), r),
    ensures
        r.worker_id == client.worker_id,
        r.proof_uuid@ == proof_uuid@,
        r.result is Error,
        r.result->Error_0.context.proof_uuid@ == proof_uuid@,
        r.result->Error_0.error@ == error_msg@,
        r.result->Error_0.step@ == "unknown"@,
        r.result->Error_0.context.program.name@ == ""@,
        r.result->Error_0.context.program.version == 0,
{
}

/// A worker registers with what it has: its URL and ID, its capacities each in its own
/// place, its programs and its role.
pub proof fn workers_register_with_what_they_have(
    worker_url: &str,
    worker_id: usize,
    app: usize,
    leaf: usize,
    internal: usize,
    programs: Vec<ProgramRef>,
    role: WorkerRole,
    r: RegisterWorkerRequest,
    client: &ResultClient,
    known_as: usize,
)
    requires
        call_ensures(
            registration_request,
            (worker_url, worker_id, app, leaf, internal, programs, role),
            r,
        ),
        call_ensures(ResultClient::worker_id, (client,), known_as),
    ensures
        r.worker_url@ == worker_url@,
        r.worker_id == worker_id,
        r.max_app_provers == app,
        r.max_leaf_provers == leaf,
        r.max_internal_provers == internal,
        r.loaded_programs == programs,
        r.worker_role == role,
        known_as == client.worker_id,
{
}

/// The text of an answer confirms an ID exactly if it is JSON and holds a number under
/// `worker_id`.
pub proof fn answers_confirm_the_id(body: &str, r: Result<usize, String>)
    requires
        call_ensures(read_confirmed_worker_id, (body,), r),
    ensures
        json_value(body@) is None ==> r is Err && r->Err_0@ == json_error(body@),
        json_value(body@) is Some && json_member(json_value(body@)->0, "worker_id"@) is None
            ==> r is Err && r->Err_0@ == "Missing worker_id in registration response"@,
        r is Ok ==> json_value(body@) is Some && json_member(
            json_value(body@)->0,
            "worker_id"@,
        ) is Some && json_number(json_member(json_value(body@)->0, "worker_id"@)->0) is Some
            && r->Ok_0 == json_number(json_member(json_value(body@)->0, "worker_id"@)->0)->0
            as usize,
        json_value(body@) is Some && json_member(json_value(body@)->0, "worker_id"@) is Some
            && json_number(json_member(json_value(body@)->0, "worker_id"@)->0) is Some
            ==> r is Ok,
{
}

} // verus!
