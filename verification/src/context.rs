//! Proof context: the identifying tuple shared by every operation in a proof.

use std::collections::BTreeMap;

use vstd::prelude::*;

use crate::program::ProgramRef;

verus! {

/// Final proof artifact type requested for a proof.
#[derive(Clone, Copy, Debug, PartialEq, Eq, PartialOrd, Ord, Hash, Structural)]
pub enum ProofType {
    Stark,
    Evm,
}

impl Default for ProofType {
    fn default() -> (r: Self)
        ensures
            r == ProofType::Stark,
    {
        ProofType::Stark
    }
}

/// Context that all proof operations share.
#[derive(Debug, PartialEq)]
pub struct ProofContext {
    pub proof_uuid: String,
    /// Program targeted by this proof.
    pub program: ProgramRef,
    /// Opaque, deployment-defined key/value labels carried with the proof. They are
    /// passed through and never interpreted.
    pub labels: BTreeMap<String, String>,
    /// Final proof artifact requested by the client.
    pub proof_type: ProofType,
}

impl ProofContext {
    /// Whether two contexts hold the same uuid, program, labels and proof type.
    pub open spec fn same_as(self, other: ProofContext) -> bool {
        &&& self.proof_uuid == other.proof_uuid
        &&& self.program == other.program
        &&& self.labels@ == other.labels@
        &&& self.proof_type == other.proof_type
    }

    pub fn new(proof_uuid: String, program: ProgramRef, labels: BTreeMap<String, String>) -> (r:
        Self)
        ensures
            r.proof_uuid == proof_uuid,
            r.program == program,
            r.labels == labels,
            r.proof_type == ProofType::Stark,
    {
        ProofContext { proof_uuid, program, labels, proof_type: ProofType::Stark }
    }
}

impl Clone for ProofContext {
    fn clone(&self) -> (res: Self)
        ensures
            res.same_as(*self),
    {
        ProofContext {
            proof_uuid: self.proof_uuid.clone(),
            program: self.program.clone(),
            labels: self.labels.clone(),
            proof_type: self.proof_type,
        }
    }
}

/// Trait for types that contain a [`ProofContext`].
pub trait WithProofContext {
    /// The context held.
    spec fn held_context(&self) -> ProofContext;

    fn context(&self) -> (r: &ProofContext)
        ensures
            *r == self.held_context(),
    ;

    fn proof_uuid(&self) -> (r: &str)
        ensures
            r@ == self.held_context().proof_uuid@,
    ;
}

/// Two contexts are the same exactly if they agree in each of the four things they hold.
pub proof fn contexts_are_compared_in_full(a: ProofContext, b: ProofContext)
    ensures
        a.same_as(b) <==> a.proof_uuid == b.proof_uuid && a.program == b.program && a.labels@
            == b.labels@ && a.proof_type == b.proof_type,
        a.same_as(b) <==> b.same_as(a),
{
}

} // verus!
