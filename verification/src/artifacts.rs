//! What a worker has loaded, as far as its decisions depend on it.

use vstd::prelude::*;
use vstd::string::*;

use crate::program::ProgramRef;
use crate::text::{decimal, push_usize};

verus! {

/// What a worker has loaded.
#[derive(Debug, Clone, Copy, PartialEq, Eq, Structural)]
pub enum ArtifactStatus {
    /// There is no artifact store yet.
    NoStore,
    /// The store holds no proving keys yet.
    NotLoaded,
    Loaded {
        /// Whether the halo2 key is there.
        has_evm: bool,
        /// The number of deferral circuits of the loaded deferral keyset, if there is
        /// one.
        deferral_circuits: Option<usize>,
    },
}

impl ArtifactStatus {
    /// The number of deferral circuits that uploads and jobs must match. Outside a
    /// deferral deployment there are none.
    pub open spec fn circuits(self) -> usize {
        match self {
            ArtifactStatus::Loaded { deferral_circuits: Some(n), .. } => n,
            _ => 0,
        }
    }

    /// Whether the worker serves a deferral deployment.
    pub open spec fn has_deferral(self) -> bool {
        self matches ArtifactStatus::Loaded { deferral_circuits: Some(_), .. }
    }

    /// Why nothing can be proved yet, if so.
    pub open spec fn not_loaded_text(self) -> Option<Seq<char>> {
        match self {
            ArtifactStatus::NoStore => Some("Artifact store not initialized"@),
            ArtifactStatus::NotLoaded => Some("Edge artifacts not loaded"@),
            ArtifactStatus::Loaded { .. } => None,
        }
    }

    /// The number of deferral circuits that uploads and jobs must match.
    pub fn loaded_deferral_circuit_count(self) -> (r: usize)
        ensures
            r == self.circuits(),
    {
        match self {
            ArtifactStatus::Loaded { deferral_circuits: Some(n), .. } => n,
            _ => 0,
        }
    }

    /// Whether the halo2 key is loaded.
    pub fn evm_ready(self) -> (r: bool)
        ensures
            r == (self matches ArtifactStatus::Loaded { has_evm, .. } && has_evm),
    {
        match self {
            ArtifactStatus::Loaded { has_evm, .. } => has_evm,
            _ => false,
        }
    }

    /// Fail while the proving keys are not loaded.
    pub fn require_loaded(self) -> (r: Result<(), String>)
        ensures
            self.not_loaded_text() is None ==> r is Ok,
            self.not_loaded_text() matches Some(text) ==> r is Err && r->Err_0@ == text,
    {
        match self {
            ArtifactStatus::NoStore => Err("Artifact store not initialized".to_owned()),
            ArtifactStatus::NotLoaded => Err("Edge artifacts not loaded".to_owned()),
            ArtifactStatus::Loaded { .. } => Ok(()),
        }
    }
}

/// Why a job that stages `num_states` deferral states is refused, if it is.
pub open spec fn states_refusal(num_states: nat, status: ArtifactStatus) -> Option<Seq<char>> {
    if num_states == 0 {
        None
    } else if status.not_loaded_text() is Some {
        status.not_loaded_text()
    } else if !status.has_deferral() {
        Some(
            "Deferral job received ("@ + decimal(num_states)
                + " circuits) but this worker is not a deferral deployment (enable_deferral not set). Refusing to start."@,
        )
    } else if num_states != status.circuits() {
        Some(
            "Deferral job has "@ + decimal(num_states)
                + " circuits in request but the loaded keyset expects "@ + decimal(
                status.circuits() as nat,
            ) + "; the caller's def_inputs.len() must match num_deferral_circuits."@,
        )
    } else {
        None
    }
}

/// Check a job that stages `num_states` deferral states against what is loaded. A job
/// without any is no deferral job and is never refused; another needs a deferral
/// deployment with exactly as many circuits.
pub fn check_deferral_states(num_states: usize, status: ArtifactStatus) -> (r: Result<(), String>)
    ensures
        match states_refusal(num_states as nat, status) {
            None => r is Ok,
            Some(text) => r is Err && r->Err_0@ == text,
        },
{
    if num_states == 0 {
        return Ok(());
    }
    match status.require_loaded() {
        Err(e) => return Err(e),
        Ok(()) => {},
    }
    match status {
        ArtifactStatus::Loaded { deferral_circuits: Some(n), .. } => {
            if num_states == n {
                return Ok(());
            }
            let mut out = "Deferral job has ".to_owned();
            push_usize(&mut out, num_states);
            out.append(" circuits in request but the loaded keyset expects ");
            push_usize(&mut out, n);
            out.append("; the caller's def_inputs.len() must match num_deferral_circuits.");
            Err(out)
        },
        _ => {
            let mut out = "Deferral job received (".to_owned();
            push_usize(&mut out, num_states);
            out.append(
                " circuits) but this worker is not a deferral deployment (enable_deferral not set). Refusing to start.",
            );
            Err(out)
        },
    }
}

/// What went wrong with a staged deferral state.
pub enum StateFailure {
    Read(String),
    Decode(String),
}

/// The text of a failure to load the deferral state of a circuit from its path.
pub open spec fn state_failure_text(
    circuit_idx: nat,
    path: Seq<char>,
    failure: StateFailure,
) -> Seq<char> {
    match failure {
        StateFailure::Read(e) => "Failed to read deferral state file for circuit "@ + decimal(
            circuit_idx,
        ) + " at "@ + path + ": "@ + e@,
        StateFailure::Decode(e) => "Failed to deserialize DeferralState for circuit "@ + decimal(
            circuit_idx,
        ) + " at "@ + path + ": "@ + e@,
    }
}

/// The text of a failure to load the deferral state of a circuit from its path.
pub fn deferral_state_failure(circuit_idx: usize, path: &str, failure: StateFailure) -> (r: String)
    ensures
        r@ == state_failure_text(circuit_idx as nat, path@, failure),
{
    match failure {
        StateFailure::Read(e) => {
            let mut out = "Failed to read deferral state file for circuit ".to_owned();
            push_usize(&mut out, circuit_idx);
            out.append(" at ");
            out.append(path);
            out.append(": ");
            out.append(e.as_str());
            out
        },
        StateFailure::Decode(e) => {
            let mut out = "Failed to deserialize DeferralState for circuit ".to_owned();
            push_usize(&mut out, circuit_idx);
            out.append(" at ");
            out.append(path);
            out.append(": ");
            out.append(e.as_str());
            out
        },
    }
}

/// Whether the terminal segment of a proof without deferred calls needs depth-0
/// merkle proofs: on a deferral deployment it does, and the program must be loaded to
/// build them.
pub fn needs_depth0_proofs(status: ArtifactStatus, program: &ProgramRef, program_loaded: bool) -> (r:
    Result<bool, String>)
    ensures
        status.not_loaded_text() matches Some(text) ==> r is Err && r->Err_0@ == text,
        status.not_loaded_text() is None ==> if !status.has_deferral() {
            r == Ok::<bool, String>(false)
        } else if program_loaded {
            r == Ok::<bool, String>(true)
        } else {
            r is Err && r->Err_0@ == "vmexe for "@ + program.rendered()
                + " not loaded on this worker"@
        },
{
    match status.require_loaded() {
        Err(e) => return Err(e),
        Ok(()) => {},
    }
    match status {
        ArtifactStatus::Loaded { deferral_circuits: Some(_), .. } => {
            if program_loaded {
                return Ok(true);
            }
            Err(program_not_loaded(program))
        },
        _ => Ok(false),
    }
}

/// The text of a job for a program whose executable is missing.
pub fn program_not_loaded(program: &ProgramRef) -> (r: String)
    ensures
        r@ == "vmexe for "@ + program.rendered() + " not loaded on this worker"@,
{
    let mut out = "vmexe for ".to_owned();
    let shown = program.render();
    out.append(shown.as_str());
    out.append(" not loaded on this worker");
    out
}

/// The text of a failure to encode depth-0 merkle proofs.
pub fn depth0_encode_failure(e: &str) -> (r: String)
    ensures
        r@ == "encode depth-0 DeferralMerkleProofs failed: "@ + e@,
{
    let mut out = "encode depth-0 DeferralMerkleProofs failed: ".to_owned();
    out.append(e);
    out
}

/// The circuits that are loaded are those of the deferral keyset; without one there are
/// none. The worker serves nothing until its keys are loaded, and the EVM step not before
/// the halo2 key is.
pub proof fn circuits_come_with_the_keyset(
    status: ArtifactStatus,
    circuits: usize,
    evm: bool,
    loaded: Result<(), String>,
)
    requires
        call_ensures(ArtifactStatus::loaded_deferral_circuit_count, (status,), circuits),
        call_ensures(ArtifactStatus::evm_ready, (status,), evm),
        call_ensures(ArtifactStatus::require_loaded, (status,), loaded),
    ensures
        status is Loaded && status->deferral_circuits is Some ==> circuits
            == status->deferral_circuits->0,
        !(status is Loaded && status->deferral_circuits is Some) ==> circuits == 0,
        evm <==> status is Loaded && status->has_evm,
        loaded is Ok <==> status is Loaded,
        status is NoStore ==> loaded->Err_0@ == "Artifact store not initialized"@,
        status is NotLoaded ==> loaded->Err_0@ == "Edge artifacts not loaded"@,
{
}

/// A job without deferral states is always accepted. Another is accepted exactly where a
/// deferral keyset with as many circuits is loaded.
pub proof fn deferral_states_fit_the_keyset(
    num_states: usize,
    status: ArtifactStatus,
    r: Result<(), String>,
)
    requires
        call_ensures(check_deferral_states, (num_states, status), r),
    ensures
        r is Ok <==> num_states == 0 || (status is Loaded && status->deferral_circuits is Some
            && status->deferral_circuits->0 == num_states),
        num_states > 0 && status is NoStore ==> r->Err_0@ == "Artifact store not initialized"@,
        num_states > 0 && status is NotLoaded ==> r->Err_0@ == "Edge artifacts not loaded"@,
{
}

/// Depth-0 proofs are needed exactly on a deferral deployment, and can be had there only if
/// the program is loaded.
pub proof fn depth0_proofs_are_for_deferral_deployments(
    status: ArtifactStatus,
    program: &ProgramRef,
    program_loaded: bool,
    r: Result<bool, String>,
)
    requires
        call_ensures(needs_depth0_proofs, (status, program, program_loaded), r),
    ensures
        !(status is Loaded) ==> r is Err,
        status is Loaded && status->deferral_circuits is None ==> r is Ok && !r->Ok_0,
        status is Loaded && status->deferral_circuits is Some ==> (r is Ok <==> program_loaded),
        status is Loaded && status->deferral_circuits is Some && r is Ok ==> r->Ok_0,
        status is Loaded && r is Err ==> r->Err_0@ == "vmexe for "@ + program.rendered()
            + " not loaded on this worker"@,
{
}

/// A state that cannot be loaded is named by its circuit and its path, and what was said of
/// it ends the text.
pub proof fn bad_states_are_named(
    circuit_idx: usize,
    path: &str,
    failure: StateFailure,
    r: String,
)
    requires
        call_ensures(deferral_state_failure, (circuit_idx, path, failure), r),
    ensures
        failure is Read ==> r@ == "Failed to read deferral state file for circuit "@ + decimal(
            circuit_idx as nat,
        ) + " at "@ + path@ + ": "@ + failure->Read_0@,
        failure is Decode ==> r@ == "Failed to deserialize DeferralState for circuit "@ + decimal(
            circuit_idx as nat,
        ) + " at "@ + path@ + ": "@ + failure->Decode_0@,
{
}

} // verus!
