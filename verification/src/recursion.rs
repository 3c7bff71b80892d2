//! Routing of aggregation requests: leaf, internal and EVM prove steps.

use vstd::prelude::*;
use vstd::string::*;

use crate::context::{ProofContext, ProofType};
use crate::prover_pool::{any_available, JobType, ProverPool};
use crate::provers::{InternalProverJob, LeafProverJob, ProofWithPublicValue};
use crate::requests::{
    DeferralTailDispatch, EvmProveRequest, GeneralProveRequest, InternalProveRequest,
    LeafProveRequest, ProofBytes,
};
use crate::uploads::{answers, Reply, BAD_REQUEST, OK, SERVICE_UNAVAILABLE};

verus! {

/// Whether `proofs` are what decoding the first of `bytes`, one after the other, came to.
pub open spec fn decoded_so_far<T, D: Fn(&Vec<u8>) -> Result<T, String>>(
    bytes: Seq<ProofBytes>,
    decode: D,
    proofs: Seq<T>,
) -> bool {
    proofs.len() <= bytes.len() && forall|i: int|
        0 <= i < proofs.len() ==> call_ensures(
            decode,
            (&bytes[i],),
            Ok::<T, String>(#[trigger] proofs[i]),
        )
}

/// Whether decoding `bytes` one after the other comes to `r`: all proofs in order, or
/// the first error.
pub open spec fn decodes<T, D: Fn(&Vec<u8>) -> Result<T, String>>(
    bytes: Seq<ProofBytes>,
    decode: D,
    r: Result<Vec<T>, String>,
) -> bool {
    match r {
        Ok(proofs) => proofs@.len() == bytes.len() && decoded_so_far(bytes, decode, proofs@),
        Err(e) => exists|before: Seq<T>| #[trigger]
            decoded_so_far(bytes, decode, before) && before.len() < bytes.len() && call_ensures(
                decode,
                (&bytes[before.len() as int],),
                Err::<T, String>(e),
            ),
    }
}

/// Decode proofs in order, up to the first that fails.
pub fn decode_proofs<T, D: Fn(&Vec<u8>) -> Result<T, String>>(
    bytes: &Vec<ProofBytes>,
    decode: &D,
) -> (r: Result<Vec<T>, String>)
    requires
        forall|b: &Vec<u8>| #[trigger] call_requires(*decode, (b,)),
    ensures
        decodes(bytes@, *decode, r),
{
    let mut out: Vec<T> = Vec::new();
    let mut i: usize = 0;
    while i < bytes.len()
        invariant
            i <= bytes@.len(),
            out@.len() == i,
            forall|b: &Vec<u8>| #[trigger] call_requires(*decode, (b,)),
            decoded_so_far(bytes@, *decode, out@),
        decreases bytes@.len() - i,
    {
        match decode(&bytes[i]) {
            Ok(p) => out.push(p),
            Err(e) => {
                assert(decoded_so_far(bytes@, *decode, out@));
                return Err(e);
            },
        }
        i = i + 1;
    }
    Ok(out)
}

/// An internal job with what its completion needs.
pub struct InternalWork<P, U> {
    pub job: InternalProverJob<P, U>,
    /// The inputs of the deferral merge, on the final proof of a deferral job.
    pub deferral_tail: Option<DeferralTailDispatch>,
    /// Depth-0 merkle proofs of a proof without deferred calls.
    pub depth0_merkle_bytes: Option<Vec<u8>>,
}

/// The work that a request asks for.
pub enum RecursionWork<P, U> {
    Leaf(LeafProverJob<P, U>),
    Internal(InternalWork<P, U>),
    Evm(EvmProveRequest),
}

/// Whether `job` is the leaf job of `req`, with its proofs decoded.
pub open spec fn is_leaf_job<P, U>(
    req: LeafProveRequest,
    app_proofs: Vec<ProofWithPublicValue<P, U>>,
    job: LeafProverJob<P, U>,
) -> bool {
    &&& job.context == req.context
    &&& job.app_proofs == app_proofs
    &&& job.segment_start == req.segment_start
    &&& job.segment_end == req.segment_end
}

/// Whether `work` is the internal work of `req`, with its proofs decoded.
pub open spec fn is_internal_work<P, U>(
    req: InternalProveRequest,
    child_proofs: Vec<ProofWithPublicValue<P, U>>,
    work: InternalWork<P, U>,
) -> bool {
    &&& work.job.context == req.context
    &&& work.job.child_proofs == child_proofs
    &&& work.job.layer_idx == req.layer_idx
    &&& work.job.segment_start == req.segment_start
    &&& work.job.segment_end == req.segment_end
    &&& work.job.is_final_proof == req.is_final_proof
    &&& work.job.proof_has_deferral == (req.deferral_tail is Some)
    &&& work.deferral_tail == req.deferral_tail
    &&& work.depth0_merkle_bytes == req.deferral_merkle_proofs_bytes
}

/// The answer to a request that could not be decoded.
pub fn undecodable_request(e: &str) -> (r: Reply)
    ensures
        answers(r, BAD_REQUEST, "Failed to deserialize work envelope: "@ + e@),
{
    let mut body = "Failed to deserialize work envelope: ".to_owned();
    body.append(e);
    Reply { status: BAD_REQUEST, body }
}

/// The answer to a request that was taken up.
pub fn work_accepted() -> (r: Reply)
    ensures
        answers(r, OK, "Work completed"@),
{
    Reply { status: OK, body: "Work completed".to_owned() }
}

/// Take up a leaf request: a leaf worker must be free, and its proofs must decode.
pub fn plan_leaf_request<P, U, D: Fn(&Vec<u8>) -> Result<ProofWithPublicValue<P, U>, String>>(
    req: LeafProveRequest,
    pool: &ProverPool,
    decode: &D,
) -> (r: Result<LeafProverJob<P, U>, Reply>)
    requires
        forall|b: &Vec<u8>| #[trigger] call_requires(*decode, (b,)),
    ensures
        !any_available(pool.workers_of(JobType::Leaf)) ==> r is Err && answers(
            r->Err_0,
            SERVICE_UNAVAILABLE,
            "No available leaf workers"@,
        ),
        any_available(pool.workers_of(JobType::Leaf)) ==> exists|
            d: Result<Vec<ProofWithPublicValue<P, U>>, String>,
        | #[trigger]
            decodes(req.app_proofs@, *decode, d) && match d {
                Ok(proofs) => r is Ok && is_leaf_job(req, proofs, r->Ok_0),
                Err(e) => r is Err && answers(
                    r->Err_0,
                    BAD_REQUEST,
                    "Invalid app proofs: "@ + e@,
                ),
            },
{
    if !pool.has_available_worker(JobType::Leaf) {
        return Err(
            Reply { status: SERVICE_UNAVAILABLE, body: "No available leaf workers".to_owned() },
        );
    }
    let decoded = decode_proofs(&req.app_proofs, decode);
    let ghost d = decoded;
    assert(decodes(req.app_proofs@, *decode, d));
    match decoded {
        Ok(app_proofs) => Ok(
            LeafProverJob {
                context: req.context,
                app_proofs,
                segment_start: req.segment_start,
                segment_end: req.segment_end,
            },
        ),
        Err(e) => {
            let mut body = "Invalid app proofs: ".to_owned();
            body.append(e.as_str());
            Err(Reply { status: BAD_REQUEST, body })
        },
    }
}

/// Take up an internal request: an internal worker must be free, and its proofs must
/// decode. The proof has a deferral tail exactly if the manager attached one.
pub fn plan_internal_request<P, U, D: Fn(&Vec<u8>) -> Result<ProofWithPublicValue<P, U>, String>>(
    req: InternalProveRequest,
    pool: &ProverPool,
    decode: &D,
) -> (r: Result<InternalWork<P, U>, Reply>)
    requires
        forall|b: &Vec<u8>| #[trigger] call_requires(*decode, (b,)),
    ensures
        !any_available(pool.workers_of(JobType::Internal)) ==> r is Err && answers(
            r->Err_0,
            SERVICE_UNAVAILABLE,
            "No available internal workers"@,
        ),
        any_available(pool.workers_of(JobType::Internal)) ==> exists|
            d: Result<Vec<ProofWithPublicValue<P, U>>, String>,
        | #[trigger]
            decodes(req.child_proofs@, *decode, d) && match d {
                Ok(proofs) => r is Ok && is_internal_work(req, proofs, r->Ok_0),
                Err(e) => r is Err && answers(
                    r->Err_0,
                    BAD_REQUEST,
                    "Invalid child proofs: "@ + e@,
                ),
            },
{
    if !pool.has_available_worker(JobType::Internal) {
        return Err(
            Reply { status: SERVICE_UNAVAILABLE, body: "No available internal workers".to_owned() },
        );
    }
    let decoded = decode_proofs(&req.child_proofs, decode);
    let ghost d = decoded;
    assert(decodes(req.child_proofs@, *decode, d));
    match decoded {
        Ok(child_proofs) => {
            let proof_has_deferral = req.deferral_tail.is_some();
            Ok(
                InternalWork {
                    job: InternalProverJob {
                        context: req.context,
                        child_proofs,
                        layer_idx: req.layer_idx,
                        segment_start: req.segment_start,
                        segment_end: req.segment_end,
                        is_final_proof: req.is_final_proof,
                        proof_has_deferral,
                    },
                    deferral_tail: req.deferral_tail,
                    depth0_merkle_bytes: req.deferral_merkle_proofs_bytes,
                },
            )
        },
        Err(e) => {
            let mut body = "Invalid child proofs: ".to_owned();
            body.append(e.as_str());
            Err(Reply { status: BAD_REQUEST, body })
        },
    }
}

/// Take up an aggregation request, or turn it away. The EVM step is always taken up.
pub fn plan_recursion<P, U, D: Fn(&Vec<u8>) -> Result<ProofWithPublicValue<P, U>, String>>(
    request: GeneralProveRequest,
    pool: &ProverPool,
    decode: &D,
) -> (r: Result<RecursionWork<P, U>, Reply>)
    requires
        forall|b: &Vec<u8>| #[trigger] call_requires(*decode, (b,)),
    ensures
        request matches GeneralProveRequest::EvmProve(req) ==> r == Ok::<
            RecursionWork<P, U>,
            Reply,
        >(RecursionWork::Evm(req)),
        request matches GeneralProveRequest::LeafProve(req) ==> {
            ||| r is Err && !any_available(pool.workers_of(JobType::Leaf)) && answers(
                r->Err_0,
                SERVICE_UNAVAILABLE,
                "No available leaf workers"@,
            )
            ||| any_available(pool.workers_of(JobType::Leaf)) && exists|
                d: Result<Vec<ProofWithPublicValue<P, U>>, String>,
            | #[trigger]
                decodes(req.app_proofs@, *decode, d) && match d {
                    Ok(proofs) => r is Ok && r->Ok_0 is Leaf && is_leaf_job(
                        req,
                        proofs,
                        r->Ok_0->Leaf_0,
                    ),
                    Err(e) => r is Err && answers(
                        r->Err_0,
                        BAD_REQUEST,
                        "Invalid app proofs: "@ + e@,
                    ),
                }
        },
        request matches GeneralProveRequest::InternalProve(req) ==> {
            ||| r is Err && !any_available(pool.workers_of(JobType::Internal)) && answers(
                r->Err_0,
                SERVICE_UNAVAILABLE,
                "No available internal workers"@,
            )
            ||| any_available(pool.workers_of(JobType::Internal)) && exists|
                d: Result<Vec<ProofWithPublicValue<P, U>>, String>,
            | #[trigger]
                decodes(req.child_proofs@, *decode, d) && match d {
                    Ok(proofs) => r is Ok && r->Ok_0 is Internal && is_internal_work(
                        req,
                        proofs,
                        r->Ok_0->Internal_0,
                    ),
                    Err(e) => r is Err && answers(
                        r->Err_0,
                        BAD_REQUEST,
                        "Invalid child proofs: "@ + e@,
                    ),
                }
        },
{
    match request {
        GeneralProveRequest::LeafProve(req) => match plan_leaf_request(req, pool, decode) {
            Ok(job) => Ok(RecursionWork::Leaf(job)),
            Err(e) => Err(e),
        },
        GeneralProveRequest::InternalProve(req) => match plan_internal_request(req, pool, decode) {
            Ok(work) => Ok(RecursionWork::Internal(work)),
            Err(e) => Err(e),
        },
        GeneralProveRequest::EvmProve(req) => Ok(RecursionWork::Evm(req)),
    }
}

/// What follows a successful internal job.
#[derive(Debug, Clone, Copy, PartialEq, Eq, Structural)]
pub enum InternalFollowUp {
    /// Submit the results as they are.
    Submit,
    /// Merge the deferral tail, and submit the merged proof in place of the raw one.
    MergeDeferralTail,
    /// Merge the deferral tail if there is one, and submit the finished proof as
    /// ready for the EVM step.
    PrepareEvm,
}

/// What follows a successful internal job.
pub open spec fn follow_up(is_final: bool, proof_type: ProofType, has_tail: bool) -> InternalFollowUp {
    if is_final && proof_type == ProofType::Evm {
        InternalFollowUp::PrepareEvm
    } else if is_final && has_tail {
        InternalFollowUp::MergeDeferralTail
    } else {
        InternalFollowUp::Submit
    }
}

/// Decide what follows a successful internal job.
pub fn internal_follow_up(is_final: bool, context: &ProofContext, has_tail: bool) -> (r:
    InternalFollowUp)
    ensures
        r == follow_up(is_final, context.proof_type, has_tail),
{
    let merges_stark_tail = is_final && context.proof_type == ProofType::Stark && has_tail;
    let hands_off_to_evm = is_final && context.proof_type == ProofType::Evm;
    if merges_stark_tail {
        InternalFollowUp::MergeDeferralTail
    } else if hands_off_to_evm {
        InternalFollowUp::PrepareEvm
    } else {
        InternalFollowUp::Submit
    }
}

/// Only a final proof is merged or handed to the EVM step. The raw internal proof of
/// an EVM proof, and of a deferral proof, is never what completes it.
pub proof fn raw_proofs_complete_plain_stark_only(
    is_final: bool,
    proof_type: ProofType,
    has_tail: bool,
)
    ensures
        !is_final ==> follow_up(is_final, proof_type, has_tail) == InternalFollowUp::Submit,
        is_final ==> (follow_up(is_final, proof_type, has_tail) == InternalFollowUp::Submit
            <==> proof_type == ProofType::Stark && !has_tail),
        follow_up(is_final, proof_type, has_tail) == InternalFollowUp::PrepareEvm <==> is_final
            && proof_type == ProofType::Evm,
{
}

/// Proofs are decoded all or not at all: a list has one proof for each of the bytes, in
/// order, and an error is that of the first that does not decode.
pub proof fn proofs_are_decoded_in_order<T, D: Fn(&Vec<u8>) -> Result<T, String>>(
    bytes: &Vec<ProofBytes>,
    decode: &D,
    r: Result<Vec<T>, String>,
)
    requires
        call_ensures(decode_proofs::<T, D>, (bytes, decode), r),
    ensures
        r matches Ok(proofs) ==> proofs@.len() == bytes@.len() && forall|i: int|
            0 <= i < bytes@.len() ==> call_ensures(
                *decode,
                (&#[trigger] bytes@[i],),
                Ok::<T, String>(proofs@[i]),
            ),
        r matches Err(e) ==> exists|before: Seq<T>|
            {
                &&& #[trigger] before.len() < bytes@.len()
                &&& call_ensures(
                    *decode,
                    (&bytes@[before.len() as int],),
                    Err::<T, String>(e),
                )
                &&& forall|i: int|
                    0 <= i < before.len() ==> call_ensures(
                        *decode,
                        (&bytes@[i],),
                        Ok::<T, String>(#[trigger] before[i]),
                    )
            },
        bytes@.len() == 0 ==> r is Ok,
{
    match r {
        Ok(proofs) => {
            assert forall|i: int| 0 <= i < bytes@.len() implies call_ensures(
                *decode,
                (&#[trigger] bytes@[i],),
                Ok::<T, String>(proofs@[i]),
            ) by {
                assert(call_ensures(*decode, (&bytes@[i],), Ok::<T, String>(proofs@[i])));
            }
        },
        Err(e) => {
            let before = choose|before: Seq<T>| #[trigger]
                decoded_so_far(bytes@, *decode, before) && before.len() < bytes@.len()
                    && call_ensures(
                    *decode,
                    (&bytes@[before.len() as int],),
                    Err::<T, String>(e),
                );
            assert(before.len() < bytes@.len());
        },
    }
}

/// An EVM request is always taken up. A leaf or internal request is turned away for want
/// of a worker exactly if none of its kind is free, and else taken up exactly if all its
/// proofs decode; the work then is for the same proof and segments.
pub proof fn requests_are_taken_up<
    P,
    U,
    D: Fn(&Vec<u8>) -> Result<ProofWithPublicValue<P, U>, String>,
>(
    request: GeneralProveRequest,
    pool: &ProverPool,
    decode: &D,
    leaf_is_free: bool,
    internal_is_free: bool,
    r: Result<RecursionWork<P, U>, Reply>,
)
    requires
        call_ensures(ProverPool::has_available_worker, (pool, JobType::Leaf), leaf_is_free),
        call_ensures(ProverPool::has_available_worker, (pool, JobType::Internal), internal_is_free),
        call_ensures(plan_recursion::<P, U, D>, (request, pool, decode), r),
    ensures
        request matches GeneralProveRequest::EvmProve(req) ==> r is Ok && r->Ok_0
            == RecursionWork::<P, U>::Evm(req),
        request matches GeneralProveRequest::LeafProve(req) ==> {
            &&& !leaf_is_free ==> r is Err && r->Err_0.status == 503 && r->Err_0.body@
                == "No available leaf workers"@
            &&& leaf_is_free && r is Err ==> r->Err_0.status == 400 && exists|k: int, e: String|
                0 <= k < req.app_proofs@.len() && #[trigger] call_ensures(
                    *decode,
                    (&req.app_proofs@[k],),
                    Err::<ProofWithPublicValue<P, U>, String>(e),
                )
            &&& r is Ok ==> leaf_is_free && (r->Ok_0 matches RecursionWork::Leaf(job)
                && job.context == req.context && job.segment_start == req.segment_start
                && job.segment_end == req.segment_end && job.app_proofs@.len()
                == req.app_proofs@.len() && forall|i: int|
                0 <= i < req.app_proofs@.len() ==> call_ensures(
                    *decode,
                    (&req.app_proofs@[i],),
                    Ok::<ProofWithPublicValue<P, U>, String>(#[trigger] job.app_proofs@[i]),
                ))
        },
        request matches GeneralProveRequest::InternalProve(req) ==> {
            &&& !internal_is_free ==> r is Err && r->Err_0.status == 503 && r->Err_0.body@
                == "No available internal workers"@
            &&& internal_is_free && r is Err ==> r->Err_0.status == 400 && exists|
                k: int,
                e: String,
            |
                0 <= k < req.child_proofs@.len() && #[trigger] call_ensures(
                    *decode,
                    (&req.child_proofs@[k],),
                    Err::<ProofWithPublicValue<P, U>, String>(e),
                )
            &&& r is Ok ==> internal_is_free && (r->Ok_0 matches RecursionWork::Internal(work)
                && work.job.context == req.context && work.job.layer_idx == req.layer_idx
                && work.job.segment_start == req.segment_start && work.job.segment_end
                == req.segment_end && work.job.is_final_proof == req.is_final_proof
                && work.job.proof_has_deferral == (req.deferral_tail is Some)
                && work.deferral_tail == req.deferral_tail && work.depth0_merkle_bytes
                == req.deferral_merkle_proofs_bytes && work.job.child_proofs@.len()
                == req.child_proofs@.len() && forall|i: int|
                0 <= i < req.child_proofs@.len() ==> call_ensures(
                    *decode,
                    (&req.child_proofs@[i],),
                    Ok::<ProofWithPublicValue<P, U>, String>(
                        #[trigger] work.job.child_proofs@[i],
                    ),
                ))
        },
{
    match request {
        GeneralProveRequest::LeafProve(req) => {
            if leaf_is_free {
                let d = choose|d: Result<Vec<ProofWithPublicValue<P, U>>, String>| #[trigger]
                    decodes(req.app_proofs@, *decode, d) && match d {
                        Ok(proofs) => r is Ok && r->Ok_0 is Leaf && is_leaf_job(
                            req,
                            proofs,
                            r->Ok_0->Leaf_0,
                        ),
                        Err(e) => r is Err && answers(
                            r->Err_0,
                            BAD_REQUEST,
                            "Invalid app proofs: "@ + e@,
                        ),
                    };
                assert(decodes(req.app_proofs@, *decode, d));
            }
        },
        GeneralProveRequest::InternalProve(req) => {
            if internal_is_free {
                let d = choose|d: Result<Vec<ProofWithPublicValue<P, U>>, String>| #[trigger]
                    decodes(req.child_proofs@, *decode, d) && match d {
                        Ok(proofs) => r is Ok && r->Ok_0 is Internal && is_internal_work(
                            req,
                            proofs,
                            r->Ok_0->Internal_0,
                        ),
                        Err(e) => r is Err && answers(
                            r->Err_0,
                            BAD_REQUEST,
                            "Invalid child proofs: "@ + e@,
                        ),
                    };
                assert(decodes(req.child_proofs@, *decode, d));
            }
        },
        GeneralProveRequest::EvmProve(_) => {},
    }
}

/// A proof that is not final is submitted as it is. A final one goes to the EVM step if it
/// is an EVM proof, is merged if it is a STARK proof with a tail, and completes the proof
/// otherwise.
pub proof fn final_proofs_are_followed_up(
    is_final: bool,
    context: &ProofContext,
    has_tail: bool,
    r: InternalFollowUp,
)
    requires
        call_ensures(internal_follow_up, (is_final, context, has_tail), r),
    ensures
        !is_final ==> r == InternalFollowUp::Submit,
        is_final && context.proof_type == ProofType::Evm ==> r == InternalFollowUp::PrepareEvm,
        is_final && context.proof_type == ProofType::Stark && has_tail ==> r
            == InternalFollowUp::MergeDeferralTail,
        is_final && context.proof_type == ProofType::Stark && !has_tail ==> r
            == InternalFollowUp::Submit,
{
}

} // verus!
