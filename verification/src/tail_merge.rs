//! The merge of the deferral tail into a final internal proof: what is done in which
//! order, and what is said when a part of it fails.
//!
//! The proving itself happens outside. [`TailMerge`] says what comes next; the caller
//! does it and reports how it went.

use vstd::prelude::*;
use vstd::string::*;

use crate::artifacts::{program_not_loaded, ArtifactStatus};
use crate::encoding::{
    contents, contents_are_encodable, decode_deferral_input, deferral_input_error, encodable,
    holds_bundle,
};
use crate::program::ProgramRef;
use crate::requests::DeferralTailDispatch;
use crate::sdk::def_pvs_air_id;
use crate::text::{decimal, push_usize};
use crate::uploads::{
    input_filename, joined_path, staged_deferral_input_path, staged_dir, uploaded_input_root,
    uploaded_input_work_dir,
};

verus! {

/// What comes next in a merge.
#[derive(Debug, Clone, Copy, PartialEq, Eq, Structural)]
pub enum TailStage {
    /// Read the staged deferral input of the next circuit.
    ReadInput,
    /// Remove the directory of the staged inputs.
    CleanDir,
    /// Look the program up.
    FindProgram,
    /// Build the deferral SDK from its cached key.
    BuildSdk,
    /// Build its provers for the program.
    BuildProver,
    /// Take its deferral prover.
    TakeDeferralProver,
    /// Take the user public values of the final internal proof.
    TakePublicValues,
    /// Decode the authentication path that the manager forwarded.
    DecodePath,
    /// Prove the deferral circuits.
    ProveCircuits,
    /// Aggregate their proofs into one deferral proof.
    ProveDeferral,
    /// Fold the deferral proof into the final internal proof.
    ProveMixed,
    /// Wrap the result once more.
    Wrap,
    /// Read the depth of the deferral tree, and finish both paths with it.
    ReadDepth,
    /// The merged proof and its merkle proofs are there.
    Finished,
}

impl TailStage {
    /// The place of the stage in the order of the merge.
    pub open spec fn rank(self) -> int {
        match self {
            TailStage::ReadInput => 0,
            TailStage::CleanDir => 1,
            TailStage::FindProgram => 2,
            TailStage::BuildSdk => 3,
            TailStage::BuildProver => 4,
            TailStage::TakeDeferralProver => 5,
            TailStage::TakePublicValues => 6,
            TailStage::DecodePath => 7,
            TailStage::ProveCircuits => 8,
            TailStage::ProveDeferral => 9,
            TailStage::ProveMixed => 10,
            TailStage::Wrap => 11,
            TailStage::ReadDepth => 12,
            TailStage::Finished => 13,
        }
    }

    /// Whether the stage spends proving time.
    pub open spec fn proves(self) -> bool {
        TailStage::ProveCircuits.rank() <= self.rank() <= TailStage::Wrap.rank()
    }
}

/// A deferral merge under way.
pub struct TailMerge {
    stage: TailStage,
    circuits: usize,
    path_len: usize,
    inputs: Vec<Vec<Vec<u8>>>,
}

impl TailMerge {
    /// What comes next.
    pub closed spec fn at(&self) -> TailStage {
        self.stage
    }

    /// The number of circuits of the loaded keyset.
    pub closed spec fn num_circuits(&self) -> nat {
        self.circuits as nat
    }

    /// The length of the forwarded path.
    pub closed spec fn path_bytes(&self) -> nat {
        self.path_len as nat
    }

    /// The inputs read so far, one for each circuit: the byte strings of each.
    pub closed spec fn read_inputs(&self) -> Seq<Seq<Seq<u8>>> {
        Seq::new(self.inputs@.len(), |i: int| contents(self.inputs@[i]@))
    }

    /// The steps taken so far.
    pub open spec fn steps(&self) -> int {
        self.at().rank() + self.read_inputs().len()
    }

    /// What holds of every merge: inputs are read while some are missing, and nothing
    /// is proved without all of them and a path.
    pub closed spec fn wf(&self) -> bool {
        &&& self.inputs@.len() <= self.circuits
        &&& self.stage == TailStage::ReadInput <==> self.inputs@.len() < self.circuits
        &&& self.stage.rank() >= TailStage::DecodePath.rank() ==> self.path_len > 0
    }

    /// Begin a merge. It takes a deferral deployment, and the inputs of as many
    /// circuits as its keyset has.
    pub fn begin(status: ArtifactStatus, tail: &DeferralTailDispatch) -> (r: Result<
        TailMerge,
        String,
    >)
        ensures
            status.not_loaded_text() matches Some(text) ==> r is Err && r->Err_0@ == text,
            status.not_loaded_text() is None && !status.has_deferral() ==> r is Err && r->Err_0@
                == "Tail deferral merge requested but this worker is not a deferral deployment (enable_deferral not set)."@,
            status.not_loaded_text() is None && status.has_deferral() ==> {
                &&& r matches Ok(m)
                &&& m.wf()
                &&& m.num_circuits() == status.circuits()
                &&& m.path_bytes() == tail.final_merkle_path_bytes@.len()
                &&& m.read_inputs() == Seq::<Seq<Seq<u8>>>::empty()
                &&& m.at() == if status.circuits() > 0 {
                    TailStage::ReadInput
                } else {
                    TailStage::CleanDir
                }
            },
    {
        match status.require_loaded() {
            Err(e) => return Err(e),
            Ok(()) => {},
        }
        match status {
            ArtifactStatus::Loaded { deferral_circuits: Some(n), .. } => {
                let stage = if n > 0 {
                    TailStage::ReadInput
                } else {
                    TailStage::CleanDir
                };
                Ok(
                    TailMerge {
                        stage,
                        circuits: n,
                        path_len: tail.final_merkle_path_bytes.len(),
                        inputs: Vec::new(),
                    },
                )
            },
            _ => Err(
                "Tail deferral merge requested but this worker is not a deferral deployment (enable_deferral not set).".to_owned(),
            ),
        }
    }

    /// What comes next.
    pub fn stage(&self) -> (r: TailStage)
        ensures
            r == self.at(),
    {
        self.stage
    }

    /// Where the next deferral input is staged.
    pub fn input_path(&self, proof_uuid: &str) -> (r: String)
        requires
            self.wf(),
            self.at() == TailStage::ReadInput,
        ensures
            r@ == joined_path(
                staged_dir(proof_uuid@),
                input_filename(self.read_inputs().len() as usize),
            ),
    {
        let idx = self.inputs.len();
        assert(idx == self.read_inputs().len());
        staged_deferral_input_path(proof_uuid, idx)
    }

    /// The directory that is removed once the inputs are read. It holds nothing else.
    pub fn input_dir(&self, proof_uuid: &str) -> (r: String)
        ensures
            r@ == staged_dir(proof_uuid@),
    {
        uploaded_input_work_dir(uploaded_input_root(), proof_uuid)
    }

    /// The inputs read so far, one for each circuit: the byte strings of each.
    pub fn inputs(&self) -> (r: &Vec<Vec<Vec<u8>>>)
        ensures
            Seq::new(r@.len(), |i: int| contents(r@[i]@)) == self.read_inputs(),
    {
        &self.inputs
    }

    /// The next input was read, or could not be. It must decode.
    pub fn input_read(&mut self, path: &str, outcome: Result<Vec<u8>, String>) -> (r: Result<
        (),
        String,
    >)
        requires
            old(self).wf(),
            old(self).at() == TailStage::ReadInput,
        ensures
            final(self).wf(),
            final(self).num_circuits() == old(self).num_circuits(),
            final(self).path_bytes() == old(self).path_bytes(),
            match outcome {
                Err(e) => *final(self) == *old(self) && r is Err && r->Err_0@
                    == "Failed to read deferral input for circuit "@ + decimal(
                    old(self).read_inputs().len(),
                ) + " at "@ + path@ + ": "@ + e@
                    + " (the manager pushes it just-in-time before the final internal prove)"@,
                Ok(bytes) => {
                    ||| {
                        &&& r is Err
                        &&& *final(self) == *old(self)
                        &&& r->Err_0@ == "Failed to deserialize DeferralInput for circuit "@
                            + decimal(old(self).read_inputs().len()) + " at "@ + path@ + ": "@
                            + deferral_input_error(bytes@)
                        &&& forall|items: Seq<Seq<u8>>|
                            encodable(items) ==> !#[trigger] holds_bundle(bytes@, items)
                    }
                    ||| {
                        &&& r is Ok
                        &&& final(self).read_inputs().len() == old(self).read_inputs().len() + 1
                        &&& final(self).read_inputs().drop_last() == old(self).read_inputs()
                        &&& holds_bundle(bytes@, final(self).read_inputs().last())
                        &&& encodable(final(self).read_inputs().last())
                        &&& final(self).at() == if final(self).read_inputs().len() < old(
                            self,
                        ).num_circuits() {
                            TailStage::ReadInput
                        } else {
                            TailStage::CleanDir
                        }
                    }
                },
            },
    {
        let idx = self.inputs.len();
        let bytes = match outcome {
            Ok(bytes) => bytes,
            Err(e) => {
                let mut out = "Failed to read deferral input for circuit ".to_owned();
                push_usize(&mut out, idx);
                out.append(" at ");
                out.append(path);
                out.append(": ");
                out.append(e.as_str());
                out.append(" (the manager pushes it just-in-time before the final internal prove)");
                return Err(out);
            },
        };
        match decode_deferral_input(bytes.as_slice()) {
            Err(e) => {
                let mut out = "Failed to deserialize DeferralInput for circuit ".to_owned();
                push_usize(&mut out, idx);
                out.append(" at ");
                out.append(path);
                out.append(": ");
                out.append(e.as_str());
                Err(out)
            },
            Ok(input) => {
                let ghost read = self.read_inputs();
                proof {
                    contents_are_encodable(input);
                }
                self.inputs.push(input);
                if self.inputs.len() == self.circuits {
                    self.stage = TailStage::CleanDir;
                }
                assert(self.read_inputs().drop_last() =~= read);
                Ok(())
            },
        }
    }

    /// What is said when the stage fails.
    pub open spec fn failure_text(
        &self,
        proof_uuid: Seq<char>,
        program: Seq<char>,
        e: Seq<char>,
    ) -> Seq<char> {
        match self.at() {
            TailStage::FindProgram => "vmexe for "@ + program + " not loaded on this worker"@,
            TailStage::BuildSdk => "Sdk::from_deferral_cached_proving_key failed: "@ + e,
            TailStage::BuildProver => "Sdk::prover failed: "@ + e,
            TailStage::TakeDeferralProver => "Reconstructed deferral SDK has no deferral prover"@,
            TailStage::TakePublicValues => "EVM prove: final internal proof for "@ + proof_uuid
                + " has no user_public_values; cannot reconstruct VmStarkProof for deferral merge"@,
            TailStage::DecodePath => "EVM prove["@ + proof_uuid
                + "]: failed to decode final-side deferral path bytes ("@ + decimal(
                self.path_bytes(),
            ) + " bytes) from DeferralTailDispatch: "@ + e,
            TailStage::ProveCircuits => "multi_deferral_circuit_prover.prove failed: "@ + e,
            TailStage::ProveDeferral => "agg_prover.prove_def failed: "@ + e,
            TailStage::ProveMixed => "agg_prover.prove_mixed failed: "@ + e,
            _ => "agg_prover.wrap_proof failed: "@ + e,
        }
    }

    fn failure(&self, proof_uuid: &str, program: &ProgramRef, e: &str) -> (r: String)
        ensures
            r@ == self.failure_text(proof_uuid@, program.rendered(), e@),
    {
        match self.stage {
            TailStage::FindProgram => program_not_loaded(program),
            TailStage::BuildSdk => after("Sdk::from_deferral_cached_proving_key failed: ", e),
            TailStage::BuildProver => after("Sdk::prover failed: ", e),
            TailStage::TakeDeferralProver =>
                "Reconstructed deferral SDK has no deferral prover".to_owned(),
            TailStage::TakePublicValues => {
                let mut out = after("EVM prove: final internal proof for ", proof_uuid);
                out.append(
                    " has no user_public_values; cannot reconstruct VmStarkProof for deferral merge",
                );
                out
            },
            TailStage::DecodePath => {
                let mut out = after("EVM prove[", proof_uuid);
                out.append("]: failed to decode final-side deferral path bytes (");
                push_usize(&mut out, self.path_len);
                out.append(" bytes) from DeferralTailDispatch: ");
                out.append(e);
                out
            },
            TailStage::ProveCircuits => after("multi_deferral_circuit_prover.prove failed: ", e),
            TailStage::ProveDeferral => after("agg_prover.prove_def failed: ", e),
            TailStage::ProveMixed => after("agg_prover.prove_mixed failed: ", e),
            _ => after("agg_prover.wrap_proof failed: ", e),
        }
    }

    /// The current stage ended, and if it failed, with what words. What is missing
    /// ends a merge as what fails does; only a directory that cannot be removed does
    /// not. An empty path is refused before anything is proved.
    pub fn advance(
        &mut self,
        proof_uuid: &str,
        program: &ProgramRef,
        outcome: Result<(), String>,
    ) -> (r: Result<(), String>)
        requires
            old(self).wf(),
            TailStage::ReadInput.rank() < old(self).at().rank() < TailStage::ReadDepth.rank(),
        ensures
            final(self).wf(),
            final(self).num_circuits() == old(self).num_circuits(),
            final(self).path_bytes() == old(self).path_bytes(),
            final(self).read_inputs() == old(self).read_inputs(),
            r is Err ==> final(self).at() == old(self).at(),
            r is Ok ==> final(self).at().rank() == old(self).at().rank() + 1,
            old(self).at() == TailStage::CleanDir ==> r is Ok,
            old(self).at() != TailStage::CleanDir ==> match outcome {
                Err(e) => r is Err && r->Err_0@ == old(self).failure_text(
                    proof_uuid@,
                    program.rendered(),
                    e@,
                ),
                Ok(()) => if old(self).at() == TailStage::TakePublicValues && old(
                    self,
                ).path_bytes() == 0 {
                    r is Err && r->Err_0@ == "EVM prove["@ + proof_uuid@
                        + "]: deferral tail dispatch is missing final_merkle_path_bytes; the terminal AppProof never carried the (DEFERRAL_AS,0) path."@
                } else {
                    r is Ok
                },
            },
    {
        let stage = self.stage;
        if let Err(e) = outcome {
            if stage != TailStage::CleanDir {
                return Err(self.failure(proof_uuid, program, e.as_str()));
            }
        }
        let next = match stage {
            TailStage::CleanDir => TailStage::FindProgram,
            TailStage::FindProgram => TailStage::BuildSdk,
            TailStage::BuildSdk => TailStage::BuildProver,
            TailStage::BuildProver => TailStage::TakeDeferralProver,
            TailStage::TakeDeferralProver => TailStage::TakePublicValues,
            TailStage::TakePublicValues => {
                if self.path_len == 0 {
                    let mut out = after("EVM prove[", proof_uuid);
                    out.append(
                        "]: deferral tail dispatch is missing final_merkle_path_bytes; the terminal AppProof never carried the (DEFERRAL_AS,0) path.",
                    );
                    return Err(out);
                }
                TailStage::DecodePath
            },
            TailStage::DecodePath => TailStage::ProveCircuits,
            TailStage::ProveCircuits => TailStage::ProveDeferral,
            TailStage::ProveDeferral => TailStage::ProveMixed,
            TailStage::ProveMixed => TailStage::Wrap,
            _ => TailStage::ReadDepth,
        };
        self.stage = next;
        Ok(())
    }

    /// The merged proof has public values for `airs` AIRs. Returns the one that says
    /// how deep the deferral tree is.
    pub fn merged(&mut self, proof_uuid: &str, airs: usize) -> (r: Result<usize, String>)
        requires
            old(self).wf(),
            old(self).at() == TailStage::ReadDepth,
        ensures
            final(self).wf(),
            final(self).num_circuits() == old(self).num_circuits(),
            final(self).path_bytes() == old(self).path_bytes(),
            final(self).read_inputs() == old(self).read_inputs(),
            airs > 2 ==> r == Ok::<usize, String>(2) && final(self).at() == TailStage::Finished,
            airs <= 2 ==> r is Err && final(self).at() == old(self).at() && r->Err_0@
                == "EVM prove["@ + proof_uuid@ + "]: merged proof has only "@ + decimal(airs as nat)
                + " public-value AIRs but DeferralPvs lives at DEF_PVS_AIR_ID="@ + decimal(2)
                + "; deferral keyset mismatch?"@,
    {
        let deferral_air = def_pvs_air_id();
        if airs > deferral_air {
            self.stage = TailStage::Finished;
            return Ok(deferral_air);
        }
        let mut out = after("EVM prove[", proof_uuid);
        out.append("]: merged proof has only ");
        push_usize(&mut out, airs);
        out.append(" public-value AIRs but DeferralPvs lives at DEF_PVS_AIR_ID=");
        push_usize(&mut out, deferral_air);
        out.append("; deferral keyset mismatch?");
        Err(out)
    }
}

fn after(text: &str, e: &str) -> (r: String)
    ensures
        r@ == text@ + e@,
{
    let mut out = text.to_owned();
    out.append(e);
    out
}

/// Nothing is proved too early: a merge at a proving stage has read the input of
/// every circuit of the keyset and has a path to decode.
pub proof fn inputs_and_path_come_before_proving(merge: &TailMerge)
    requires
        merge.wf(),
        merge.at().proves() || merge.at().rank() > TailStage::Wrap.rank(),
    ensures
        merge.read_inputs().len() == merge.num_circuits(),
        merge.path_bytes() > 0,
{
}

/// Every merge ends: it takes one step for each circuit and one for each later stage,
/// and no step leads back.
pub proof fn merge_takes_bounded_steps(merge: &TailMerge)
    requires
        merge.wf(),
    ensures
        0 <= merge.steps() <= merge.num_circuits() + TailStage::Finished.rank(),
{
}

/// A merge begins exactly on a deferral deployment. It first reads the input of each
/// circuit of the keyset; where there is none it goes on to the directory.
pub proof fn merges_begin_with_the_inputs(
    status: ArtifactStatus,
    tail: &DeferralTailDispatch,
    r: Result<TailMerge, String>,
)
    requires
        call_ensures(TailMerge::begin, (status, tail), r),
    ensures
        r is Ok <==> status is Loaded && status->deferral_circuits is Some,
        r is Ok ==> {
            &&& r->Ok_0.wf()
            &&& r->Ok_0.num_circuits() == status->deferral_circuits->0
            &&& r->Ok_0.path_bytes() == tail.final_merkle_path_bytes@.len()
            &&& r->Ok_0.read_inputs().len() == 0
            &&& r->Ok_0.at() is ReadInput <==> status->deferral_circuits->0 > 0
            &&& r->Ok_0.at() is ReadInput || r->Ok_0.at() is CleanDir
        },
{
}

/// A merge goes through its stages one by one: the directory, the program, the SDK, its
/// provers, the deferral prover, the public values, the path, the circuits, the deferral
/// proof, the mixed proof, the wrap, and the depth.
pub proof fn stages_follow_each_other(
    merge: &mut TailMerge,
    proof_uuid: &str,
    program: &ProgramRef,
    outcome: Result<(), String>,
    r: Result<(), String>,
)
    requires
        call_ensures(TailMerge::advance, (merge, proof_uuid, program, outcome), r),
        r is Ok,
    ensures
        old(merge).at() is CleanDir ==> final(merge).at() is FindProgram,
        old(merge).at() is FindProgram ==> final(merge).at() is BuildSdk,
        old(merge).at() is BuildSdk ==> final(merge).at() is BuildProver,
        old(merge).at() is BuildProver ==> final(merge).at() is TakeDeferralProver,
        old(merge).at() is TakeDeferralProver ==> final(merge).at() is TakePublicValues,
        old(merge).at() is TakePublicValues ==> final(merge).at() is DecodePath,
        old(merge).at() is DecodePath ==> final(merge).at() is ProveCircuits,
        old(merge).at() is ProveCircuits ==> final(merge).at() is ProveDeferral,
        old(merge).at() is ProveDeferral ==> final(merge).at() is ProveMixed,
        old(merge).at() is ProveMixed ==> final(merge).at() is Wrap,
        old(merge).at() is Wrap ==> final(merge).at() is ReadDepth,
        final(merge).read_inputs() == old(merge).read_inputs(),
        final(merge).num_circuits() == old(merge).num_circuits(),
{
}

/// A stage that fails ends the merge where it stands, except that a directory may stay. A
/// stage that is done leads on, except that nothing is decoded from an empty path.
pub proof fn failing_stages_end_the_merge(
    merge: &mut TailMerge,
    proof_uuid: &str,
    program: &ProgramRef,
    outcome: Result<(), String>,
    r: Result<(), String>,
)
    requires
        call_ensures(TailMerge::advance, (merge, proof_uuid, program, outcome), r),
    ensures
        r is Ok <==> old(merge).at() is CleanDir || (outcome is Ok
            && !(old(merge).at() is TakePublicValues && old(merge).path_bytes() == 0)),
        r is Err ==> final(merge).at() == old(merge).at(),
        outcome is Err && old(merge).at() is FindProgram ==> r->Err_0@ == "vmexe for "@
            + program.rendered() + " not loaded on this worker"@,
        outcome is Err && old(merge).at() is BuildSdk ==> r->Err_0@
            == "Sdk::from_deferral_cached_proving_key failed: "@ + outcome->Err_0@,
        outcome is Err && old(merge).at() is BuildProver ==> r->Err_0@ == "Sdk::prover failed: "@
            + outcome->Err_0@,
        outcome is Err && old(merge).at() is TakeDeferralProver ==> r->Err_0@
            == "Reconstructed deferral SDK has no deferral prover"@,
        outcome is Err && old(merge).at() is TakePublicValues ==> r->Err_0@
            == "EVM prove: final internal proof for "@ + proof_uuid@
            + " has no user_public_values; cannot reconstruct VmStarkProof for deferral merge"@,
        outcome is Err && old(merge).at() is DecodePath ==> r->Err_0@ == "EVM prove["@
            + proof_uuid@ + "]: failed to decode final-side deferral path bytes ("@ + decimal(
            old(merge).path_bytes(),
        ) + " bytes) from DeferralTailDispatch: "@ + outcome->Err_0@,
        outcome is Err && old(merge).at() is ProveCircuits ==> r->Err_0@
            == "multi_deferral_circuit_prover.prove failed: "@ + outcome->Err_0@,
        outcome is Err && old(merge).at() is ProveDeferral ==> r->Err_0@
            == "agg_prover.prove_def failed: "@ + outcome->Err_0@,
        outcome is Err && old(merge).at() is ProveMixed ==> r->Err_0@
            == "agg_prover.prove_mixed failed: "@ + outcome->Err_0@,
        outcome is Err && old(merge).at() is Wrap ==> r->Err_0@
            == "agg_prover.wrap_proof failed: "@ + outcome->Err_0@,
{
}

/// An input that was read is added behind those before it, and reading goes on as long as
/// the input of a circuit is missing. One that was not changes nothing.
pub proof fn inputs_are_read_one_by_one(
    merge: &mut TailMerge,
    path: &str,
    outcome: Result<Vec<u8>, String>,
    r: Result<(), String>,
)
    requires
        call_ensures(TailMerge::input_read, (merge, path, outcome), r),
    ensures
        outcome is Err ==> r is Err,
        r is Err ==> *final(merge) == *old(merge),
        r is Ok ==> {
            &&& final(merge).read_inputs().len() == old(merge).read_inputs().len() + 1
            &&& forall|i: int|
                0 <= i < old(merge).read_inputs().len() ==> #[trigger] final(merge).read_inputs()[i]
                    == old(merge).read_inputs()[i]
            &&& holds_bundle(outcome->Ok_0@, final(merge).read_inputs().last())
            &&& final(merge).at() is ReadInput <==> old(merge).read_inputs().len() + 1
                < old(merge).num_circuits()
            &&& final(merge).at() is ReadInput || final(merge).at() is CleanDir
        },
{
    if r is Ok {
        assert forall|i: int| 0 <= i < old(merge).read_inputs().len() implies
            #[trigger] final(merge).read_inputs()[i] == old(merge).read_inputs()[i] by {
            assert(final(merge).read_inputs().drop_last()[i] == final(merge).read_inputs()[i]);
        }
    }
}

/// The depth is read from the third of the public values; a proof that has fewer is not
/// the merged one.
pub proof fn the_depth_is_the_third_value(
    merge: &mut TailMerge,
    proof_uuid: &str,
    airs: usize,
    r: Result<usize, String>,
)
    requires
        call_ensures(TailMerge::merged, (merge, proof_uuid, airs), r),
    ensures
        r is Ok <==> airs >= 3,
        r is Ok ==> r->Ok_0 == 2 && final(merge).at() is Finished,
        r is Err ==> final(merge).at() == old(merge).at(),
{
}

/// The next input to read is the one of the first circuit that has none yet, where the
/// manager stages it, and what is removed afterwards is the directory that it lies in.
pub proof fn inputs_are_read_where_they_are_staged(
    merge: &TailMerge,
    proof_uuid: &str,
    path: String,
    circuit_idx: usize,
    staged: String,
    dir: String,
)
    requires
        call_ensures(TailMerge::input_path, (merge, proof_uuid), path),
        call_ensures(TailMerge::input_dir, (merge, proof_uuid), dir),
        circuit_idx == merge.read_inputs().len(),
        call_ensures(staged_deferral_input_path, (proof_uuid, circuit_idx), staged),
    ensures
        path@ == staged@,
        dir@ == joined_path("/dev/shm"@, "edge_"@ + proof_uuid@),
{
}

} // verus!
