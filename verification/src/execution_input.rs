//! The input of an execution: the staged guest input, with the deferral states that
//! were staged beside it.

use openvm_sdk::openvm_circuit::arch::deferral::DeferralState;
use vstd::prelude::*;
use vstd::string::*;

use crate::artifacts::{
    check_deferral_states, deferral_state_failure, state_failure_text, states_refusal,
    ArtifactStatus, StateFailure,
};
use crate::encoding::{
    decode_input, decode_state, encoded_input, encoded_state, input_error, state_error,
    state_inputs, state_outputs, KnownInput,
};
use crate::segments::{AppJobKind, ShardedAppProverJob};
use crate::snapshots::{validate_shard, ShardError};

verus! {

/// What a deferral state holds.
pub struct StateContents {
    pub inputs: Map<Seq<u8>, KnownInput>,
    pub outputs: Map<Seq<u8>, Seq<u8>>,
}

/// What an input holds.
pub struct InputContents {
    /// What the guest reads, one piece after the other.
    pub chunks: Seq<Seq<u32>>,
    pub deferrals: Seq<StateContents>,
}

/// The input of an execution.
pub struct ExecutionInput {
    /// What the guest reads, one piece after the other: field elements by their
    /// canonical numbers.
    pub chunks: Vec<Vec<u32>>,
    /// The deferral states, one for each circuit of a deferral job.
    pub deferrals: Vec<DeferralState>,
}

/// What a deferral state holds.
pub open spec fn held(state: DeferralState) -> StateContents {
    StateContents { inputs: state_inputs(state), outputs: state_outputs(state) }
}

/// What each of the deferral states holds.
pub open spec fn all_held(states: Seq<DeferralState>) -> Seq<StateContents> {
    Seq::new(states.len(), |i: int| held(states[i]))
}

impl View for ExecutionInput {
    type V = InputContents;

    open spec fn view(&self) -> InputContents {
        InputContents {
            chunks: Seq::new(self.chunks@.len(), |i: int| self.chunks@[i]@),
            deferrals: all_held(self.deferrals@),
        }
    }
}

/// A staged file as it was read, or what was said of it.
pub type ReadFile = Result<Vec<u8>, String>;

/// What went wrong with the deferral state in a file, if anything did.
pub open spec fn is_state_failure(file: ReadFile, failure: StateFailure) -> bool {
    match file {
        Err(e) => failure == StateFailure::Read(e),
        Ok(bytes) => encoded_state(bytes@) is None && (failure matches StateFailure::Decode(e)
            && e@ == state_error(bytes@)),
    }
}

/// Whether a file was read and holds a deferral state.
pub open spec fn holds_state(file: ReadFile) -> bool {
    file matches Ok(bytes) && encoded_state(bytes@) is Some
}

/// Whether every file was read and holds a deferral state.
pub open spec fn hold_states(files: Seq<ReadFile>) -> bool {
    forall|i: int| 0 <= i < files.len() ==> holds_state(#[trigger] files[i])
}

/// What the deferral states in the files hold.
pub open spec fn states_of(files: Seq<ReadFile>) -> Seq<StateContents> {
    Seq::new(files.len(), |i: int| encoded_state(files[i]->Ok_0@)->0)
}

/// Whether `text` speaks of the first file that holds no deferral state.
pub open spec fn blames_first_bad_file(
    paths: Seq<String>,
    files: Seq<ReadFile>,
    text: Seq<char>,
) -> bool {
    exists|k: int, failure: StateFailure|
        {
            &&& 0 <= k < files.len()
            &&& forall|i: int| 0 <= i < k ==> holds_state(#[trigger] files[i])
            &&& #[trigger] is_state_failure(files[k], failure)
            &&& text == state_failure_text(k as nat, paths[k]@, failure)
        }
}

/// Load the deferral states of a job from its staged files, one for each circuit of
/// the loaded keyset. A job without any is no deferral job and has none.
pub fn load_and_validate_deferral_states(
    paths: &Vec<String>,
    files: &Vec<ReadFile>,
    status: ArtifactStatus,
) -> (r: Result<Vec<DeferralState>, String>)
    requires
        paths@.len() == files@.len(),
    ensures
        match states_refusal(files@.len(), status) {
            Some(text) => r is Err && r->Err_0@ == text,
            None => if hold_states(files@) {
                r is Ok && all_held(r->Ok_0@) == states_of(files@)
            } else {
                r is Err && blames_first_bad_file(paths@, files@, r->Err_0@)
            },
        },
{
    match check_deferral_states(files.len(), status) {
        Err(e) => return Err(e),
        Ok(()) => {},
    }
    let mut states: Vec<DeferralState> = Vec::new();
    let mut i: usize = 0;
    while i < files.len()
        invariant
            i <= files@.len(),
            paths@.len() == files@.len(),
            states_refusal(files@.len(), status) is None,
            states@.len() == i,
            forall|j: int| 0 <= j < i ==> holds_state(#[trigger] files@[j]),
            forall|j: int|
                0 <= j < i ==> held(#[trigger] states@[j]) == encoded_state(
                    files@[j]->Ok_0@,
                )->0,
        decreases files@.len() - i,
    {
        let path = paths[i].as_str();
        match &files[i] {
            Err(e) => {
                let failure = StateFailure::Read(e.clone());
                assert(is_state_failure(files@[i as int], failure));
                assert(!holds_state(files@[i as int]));
                return Err(deferral_state_failure(i, path, failure));
            },
            Ok(bytes) => match decode_state(bytes.as_slice()) {
                Err(e) => {
                    let failure = StateFailure::Decode(e);
                    assert(is_state_failure(files@[i as int], failure));
                    assert(!holds_state(files@[i as int]));
                    return Err(deferral_state_failure(i, path, failure));
                },
                Ok(state) => states.push(state),
            },
        }
        i = i + 1;
    }
    assert(all_held(states@) =~= states_of(files@));
    Ok(states)
}

/// Whether `r` is the input of an execution that is built from the staged input and the
/// staged deferral states, or what is said of the first that is of no use. The states
/// replace those of the input only if there are any.
pub open spec fn builds_input(
    bytes: Seq<u8>,
    paths: Seq<String>,
    files: Seq<ReadFile>,
    status: ArtifactStatus,
    r: Result<ExecutionInput, String>,
) -> bool {
    match encoded_input(bytes) {
        None => r is Err && r->Err_0@ == "Failed to deserialize input: "@ + input_error(bytes),
        Some(input) => match states_refusal(files.len(), status) {
            Some(text) => r is Err && r->Err_0@ == text,
            None => if hold_states(files) {
                r is Ok && r->Ok_0@ == if files.len() > 0 {
                    InputContents { deferrals: states_of(files), ..input }
                } else {
                    input
                }
            } else {
                r is Err && blames_first_bad_file(paths, files, r->Err_0@)
            },
        },
    }
}

/// Build the input of an execution from the staged input and the staged deferral
/// states. The states replace those of the input only if there are any.
pub fn build_execution_stdin(
    bytes: &[u8],
    paths: &Vec<String>,
    files: &Vec<ReadFile>,
    status: ArtifactStatus,
) -> (r: Result<ExecutionInput, String>)
    requires
        paths@.len() == files@.len(),
    ensures
        builds_input(bytes@, paths@, files@, status, r),
{
    let mut input = match decode_input(bytes) {
        Err(e) => {
            let mut out = "Failed to deserialize input: ".to_owned();
            out.append(e.as_str());
            return Err(out);
        },
        Ok(input) => input,
    };
    match load_and_validate_deferral_states(paths, files, status) {
        Err(e) => Err(e),
        Ok(states) => {
            assert(all_held(states@).len() == states_of(files@).len());
            if states.len() > 0 {
                input.deferrals = states;
            }
            Ok(input)
        },
    }
}

/// Whether `r` is what a job starts from: it is checked first, then its staged input is
/// read, and then it is put together with the deferral states.
pub open spec fn starts_from(
    kind: AppJobKind,
    job: ShardedAppProverJob,
    staged: ReadFile,
    files: Seq<ReadFile>,
    status: ArtifactStatus,
    r: Result<ExecutionInput, String>,
) -> bool {
    if job.prover_id >= job.num_provers {
        r is Err && r->Err_0@ == kind.prefix() + if job.num_provers == 0 {
            ShardError::NoProvers.text()
        } else {
            ShardError::ProverOutOfRange {
                prover_id: job.prover_id,
                num_provers: job.num_provers,
            }.text()
        }
    } else {
        match staged {
            Err(e) => r is Err && r->Err_0@ == kind.prefix() + ("Failed to read input file "@
                + job.input_path@ + ": "@ + e@),
            Ok(bytes) => exists|built: Result<ExecutionInput, String>|
                {
                    &&& #[trigger] builds_input(
                        bytes@,
                        job.deferral_state_paths@,
                        files,
                        status,
                        built,
                    )
                    &&& match built {
                        Ok(input) => r == Ok::<ExecutionInput, String>(input),
                        Err(e) => r is Err && r->Err_0@ == kind.prefix() + e@,
                    }
                },
        }
    }
}

/// Make the input that a job is executed on from its staged files as they were read, or
/// the text of its failure.
pub fn start_app_job(
    kind: AppJobKind,
    job: &ShardedAppProverJob,
    staged: ReadFile,
    files: &Vec<ReadFile>,
    status: ArtifactStatus,
) -> (r: Result<ExecutionInput, String>)
    requires
        job.deferral_state_paths@.len() == files@.len(),
    ensures
        starts_from(kind, *job, staged, files@, status, r),
{
    match validate_shard(job.num_provers, job.prover_id) {
        Err(e) => {
            let text = e.message();
            return Err(kind.failure(text.as_str()));
        },
        Ok(()) => {},
    }
    let bytes = match staged {
        Err(e) => {
            let mut out = "Failed to read input file ".to_owned();
            out.append(job.input_path.as_str());
            out.append(": ");
            out.append(e.as_str());
            return Err(kind.failure(out.as_str()));
        },
        Ok(bytes) => bytes,
    };
    let built = build_execution_stdin(
        bytes.as_slice(),
        &job.deferral_state_paths,
        files,
        status,
    );
    assert(builds_input(bytes@, job.deferral_state_paths@, files@, status, built));
    match built {
        Ok(input) => Ok(input),
        Err(e) => Err(kind.failure(e.as_str())),
    }
}

/// The deferral states of a job are loaded exactly if their number fits the keyset and
/// every file was read and decodes. They come in the order of the files, each with what its
/// file holds.
pub proof fn states_are_loaded_in_order(
    paths: &Vec<String>,
    files: &Vec<ReadFile>,
    status: ArtifactStatus,
    r: Result<Vec<DeferralState>, String>,
)
    requires
        call_ensures(load_and_validate_deferral_states, (paths, files, status), r),
    ensures
        r is Ok <==> (files@.len() == 0 || (status is Loaded && status->deferral_circuits is Some
            && status->deferral_circuits->0 == files@.len())) && forall|i: int|
            0 <= i < files@.len() ==> (#[trigger] files@[i]) is Ok && encoded_state(
                files@[i]->Ok_0@,
            ) is Some,
        r is Ok ==> r->Ok_0@.len() == files@.len(),
        r is Ok ==> forall|i: int|
            0 <= i < files@.len() ==> state_inputs(#[trigger] r->Ok_0@[i]) == (encoded_state(
                files@[i]->Ok_0@,
            )->0).inputs && state_outputs(r->Ok_0@[i]) == (encoded_state(
                files@[i]->Ok_0@,
            )->0).outputs,
{
    if hold_states(files@) {
        assert forall|i: int| 0 <= i < files@.len() implies (#[trigger] files@[i]) is Ok
            && encoded_state(files@[i]->Ok_0@) is Some by {
            assert(holds_state(files@[i]));
        }
    }
    if r is Ok {
        let states = r->Ok_0@;
        assert(all_held(states).len() == states_of(files@).len());
        assert forall|i: int| 0 <= i < files@.len() implies state_inputs(#[trigger] states[i])
            == (encoded_state(files@[i]->Ok_0@)->0).inputs && state_outputs(states[i]) == (
        encoded_state(files@[i]->Ok_0@)->0).outputs by {
            assert(all_held(states)[i] == states_of(files@)[i]);
        }
    }
}

/// Where a file cannot be read, the text of the failure is about the first file that is of
/// no use: none before it, by number and path.
pub proof fn the_first_bad_file_is_named(
    paths: &Vec<String>,
    files: &Vec<ReadFile>,
    status: ArtifactStatus,
    r: Result<Vec<DeferralState>, String>,
    k: int,
)
    requires
        call_ensures(load_and_validate_deferral_states, (paths, files, status), r),
        status is Loaded,
        status->deferral_circuits is Some,
        status->deferral_circuits->0 == files@.len(),
        0 <= k < files@.len(),
        forall|i: int|
            0 <= i < k ==> (#[trigger] files@[i]) is Ok && encoded_state(files@[i]->Ok_0@) is Some,
        files@[k] is Err || encoded_state(files@[k]->Ok_0@) is None,
    ensures
        r is Err,
        files@[k] is Err ==> r->Err_0@ == "Failed to read deferral state file for circuit "@
            + crate::text::decimal(k as nat) + " at "@ + paths@[k]@ + ": "@ + files@[k]->Err_0@,
        files@[k] is Ok ==> r->Err_0@ == "Failed to deserialize DeferralState for circuit "@
            + crate::text::decimal(k as nat) + " at "@ + paths@[k]@ + ": "@ + state_error(
            files@[k]->Ok_0@,
        ),
{
    assert(!holds_state(files@[k]));
    let (j, failure) = choose|j: int, failure: StateFailure|
        {
            &&& 0 <= j < files@.len()
            &&& forall|i: int| 0 <= i < j ==> holds_state(#[trigger] files@[i])
            &&& #[trigger] is_state_failure(files@[j], failure)
            &&& r->Err_0@ == state_failure_text(j as nat, paths@[j]@, failure)
        };
    assert(!holds_state(files@[j]));
    if j < k {
        assert(files@[j] is Ok && encoded_state(files@[j]->Ok_0@) is Some);
    }
    assert(j == k);
}

/// The input of an execution holds what was staged for the guest. Its deferral states are
/// those that were staged beside it if there are any, and its own otherwise.
pub proof fn staged_states_replace_those_of_the_input(
    bytes: &[u8],
    paths: &Vec<String>,
    files: &Vec<ReadFile>,
    status: ArtifactStatus,
    r: Result<ExecutionInput, String>,
)
    requires
        call_ensures(build_execution_stdin, (bytes, paths, files, status), r),
    ensures
        encoded_input(bytes@) is None ==> r is Err && r->Err_0@
            == "Failed to deserialize input: "@ + input_error(bytes@),
        encoded_input(bytes@) is Some && files@.len() == 0 ==> r is Ok && r->Ok_0@ == encoded_input(
            bytes@,
        )->0,
        r is Ok ==> encoded_input(bytes@) is Some && r->Ok_0@.chunks == (encoded_input(
            bytes@,
        )->0).chunks,
        r is Ok && files@.len() > 0 ==> r->Ok_0@.deferrals.len() == files@.len() && forall|i: int|
            0 <= i < files@.len() ==> (#[trigger] files@[i]) is Ok && Some(
                r->Ok_0@.deferrals[i],
            ) == encoded_state(files@[i]->Ok_0@),
        encoded_input(bytes@) is Some && files@.len() > 0 && status is Loaded
            && status->deferral_circuits is Some && status->deferral_circuits->0 == files@.len()
            && (forall|i: int|
            0 <= i < files@.len() ==> (#[trigger] files@[i]) is Ok && encoded_state(
                files@[i]->Ok_0@,
            ) is Some) ==> r is Ok,
{
    if r is Ok && files@.len() > 0 {
        assert forall|i: int| 0 <= i < files@.len() implies (#[trigger] files@[i]) is Ok && Some(
            r->Ok_0@.deferrals[i],
        ) == encoded_state(files@[i]->Ok_0@) by {
            assert(holds_state(files@[i]));
            assert(states_of(files@)[i] == encoded_state(files@[i]->Ok_0@)->0);
        }
    }
}

/// A job starts exactly if its shard exists, its staged input was read and decodes, and its
/// deferral states are loaded. Whatever fails is told with the prefix of its kind.
pub proof fn jobs_start_from_their_files(
    kind: AppJobKind,
    job: &ShardedAppProverJob,
    staged: ReadFile,
    files: &Vec<ReadFile>,
    status: ArtifactStatus,
    r: Result<ExecutionInput, String>,
)
    requires
        call_ensures(start_app_job, (kind, job, staged, files, status), r),
    ensures
        r is Ok <==> job.prover_id < job.num_provers && staged is Ok && encoded_input(
            staged->Ok_0@,
        ) is Some && (files@.len() == 0 || (status is Loaded && status->deferral_circuits is Some
            && status->deferral_circuits->0 == files@.len())) && forall|i: int|
            0 <= i < files@.len() ==> (#[trigger] files@[i]) is Ok && encoded_state(
                files@[i]->Ok_0@,
            ) is Some,
        r is Ok ==> r->Ok_0@.chunks == (encoded_input(staged->Ok_0@)->0).chunks,
        job.prover_id < job.num_provers && staged is Err ==> r->Err_0@ == kind.prefix()
            + "Failed to read input file "@ + job.input_path@ + ": "@ + staged->Err_0@,
{
    if hold_states(files@) {
        assert forall|i: int| 0 <= i < files@.len() implies (#[trigger] files@[i]) is Ok
            && encoded_state(files@[i]->Ok_0@) is Some by {
            assert(holds_state(files@[i]));
        }
    }
    if job.prover_id < job.num_provers && staged is Err {
        assert(r->Err_0@ =~= kind.prefix() + "Failed to read input file "@ + job.input_path@
            + ": "@ + staged->Err_0@);
    }
}

} // verus!
