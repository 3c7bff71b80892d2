use edge_worker::artifacts::ArtifactStatus;
use edge_worker::context::ProofContext;
use edge_worker::execution_input::{
    build_execution_stdin, load_and_validate_deferral_states, start_app_job, ExecutionInput,
    ReadFile,
};
use edge_worker::program::ProgramRef;
use edge_worker::segments::{AppJobKind, ShardedAppProverJob};
use edge_worker::uploads::{prepare_uploaded_input_bytes, UploadedInputFormat};
use openvm_sdk::openvm_circuit::arch::deferral::{DeferralState, InputMapVal};
use openvm_sdk::StdIn;

fn loaded(deferral_circuits: Option<usize>) -> ArtifactStatus {
    ArtifactStatus::Loaded { has_evm: false, deferral_circuits }
}

fn paths(n: usize) -> Vec<String> {
    (0..n).map(|i| format!("/p/{i}")).collect()
}

fn state(input: u8) -> DeferralState {
    let mut state = DeferralState::default();
    state.store_input(vec![input], vec![input, input]);
    state.store_input(vec![100], vec![]);
    state.store_output(&vec![100], vec![101], vec![102]);
    state
}

fn encoded(state: &DeferralState) -> ReadFile {
    Ok(bincode::serialize(state).unwrap())
}

fn holds(state: &DeferralState, input: u8) -> bool {
    matches!(state.get_input(&vec![input]), InputMapVal::Raw(raw) if *raw == vec![input, input])
        && matches!(state.get_input(&vec![100]), InputMapVal::Output(out) if *out == vec![101])
        && *state.get_output(&vec![101]) == vec![102]
}

fn refusal(r: Result<ExecutionInput, String>) -> String {
    match r {
        Err(e) => e,
        Ok(_) => panic!("expected a refusal"),
    }
}

fn stdin_bytes(deferrals: Vec<DeferralState>) -> Vec<u8> {
    let mut stdin: StdIn = StdIn::default();
    stdin.write_bytes(&[1, 2, 255]);
    stdin.write_bytes(&[]);
    stdin.deferrals = deferrals;
    bincode::serialize(&stdin).unwrap()
}

#[test]
fn plain_jobs_keep_the_staged_input() {
    for status in [ArtifactStatus::NoStore, loaded(None), loaded(Some(2))] {
        let input = build_execution_stdin(&stdin_bytes(vec![]), &vec![], &vec![], status).unwrap();
        assert_eq!(input.chunks, vec![vec![1u32, 2, 255], vec![]]);
        assert!(input.deferrals.is_empty());
    }
    let bytes = stdin_bytes(vec![state(4)]);
    let input = build_execution_stdin(&bytes, &vec![], &vec![], loaded(None)).unwrap();
    assert_eq!(input.deferrals.len(), 1);
    assert!(holds(&input.deferrals[0], 4));
}

#[test]
fn staged_states_replace_those_of_the_input() {
    let files = vec![encoded(&state(7)), encoded(&state(8))];
    let bytes = stdin_bytes(vec![state(4)]);
    let input = build_execution_stdin(&bytes, &paths(2), &files, loaded(Some(2))).unwrap();
    assert_eq!(input.chunks, vec![vec![1u32, 2, 255], vec![]]);
    assert_eq!(input.deferrals.len(), 2);
    assert!(holds(&input.deferrals[0], 7));
    assert!(holds(&input.deferrals[1], 8));
}

#[test]
fn unreadable_inputs_are_refused_first() {
    let bytes = stdin_bytes(vec![]);
    let short = &bytes[..bytes.len() - 1];
    let cause = bincode::deserialize::<StdIn>(short).err().unwrap();
    let expected = format!("Failed to deserialize input: {cause}");
    let files: Vec<ReadFile> = vec![Err("gone".to_string())];
    assert_eq!(
        refusal(build_execution_stdin(short, &paths(1), &files, ArtifactStatus::NoStore)),
        expected
    );
    assert_eq!(refusal(build_execution_stdin(short, &vec![], &vec![], loaded(None))), expected);
}

#[test]
fn deferral_jobs_are_refused_on_other_deployments() {
    let bytes = stdin_bytes(vec![]);
    let files: Vec<ReadFile> = vec![Err("gone".to_string())];
    let build = |status| refusal(build_execution_stdin(&bytes, &paths(1), &files, status));
    assert_eq!(build(ArtifactStatus::NoStore), "Artifact store not initialized");
    assert_eq!(build(ArtifactStatus::NotLoaded), "Edge artifacts not loaded");
    assert_eq!(
        build(loaded(None)),
        "Deferral job received (1 circuits) but this worker is not a deferral deployment \
         (enable_deferral not set). Refusing to start."
    );
    assert_eq!(
        build(loaded(Some(2))),
        "Deferral job has 1 circuits in request but the loaded keyset expects 2; \
         the caller's def_inputs.len() must match num_deferral_circuits."
    );
}

#[test]
fn the_first_bad_state_file_is_named() {
    let good = encoded(&state(1));
    let broken: ReadFile = Ok(vec![1, 2, 3]);
    let cause = bincode::deserialize::<DeferralState>(&[1, 2, 3]).err().unwrap();
    let files = vec![good.clone(), broken.clone(), Err("gone".to_string())];
    assert_eq!(
        load_and_validate_deferral_states(&paths(3), &files, loaded(Some(3))).err().unwrap(),
        format!("Failed to deserialize DeferralState for circuit 1 at /p/1: {cause}")
    );
    let files = vec![Err("gone".to_string()), broken, good];
    assert_eq!(
        refusal(build_execution_stdin(
            &stdin_bytes(vec![]),
            &paths(3),
            &files,
            loaded(Some(3))
        )),
        "Failed to read deferral state file for circuit 0 at /p/0: gone"
    );
    assert!(load_and_validate_deferral_states(&vec![], &vec![], loaded(None)).unwrap().is_empty());
}

#[test]
fn jobs_are_checked_before_their_input_is_read() {
    let job = |num_provers, prover_id| ShardedAppProverJob {
        context: ProofContext::new(
            "p".to_string(),
            ProgramRef::new("prog", 1),
            Default::default(),
        ),
        num_provers,
        prover_id,
        input_path: "/p/input.bin".to_string(),
        segment_memory: None,
        max_app_provers: 1,
        streams_results: false,
        deferral_state_paths: paths(1),
    };
    let start = |kind, job: ShardedAppProverJob, staged: ReadFile, circuits| {
        start_app_job(kind, &job, staged, &vec![encoded(&state(7))], loaded(circuits))
    };
    let gone = || -> ReadFile { Err("gone".to_string()) };
    let whole = || -> ReadFile { Ok(stdin_bytes(vec![])) };
    assert_eq!(
        refusal(start(AppJobKind::Sharded, job(0, 0), gone(), Some(1))),
        "Sharded app prove failed: num_provers cannot be 0"
    );
    assert_eq!(
        refusal(start(AppJobKind::Parallel, job(2, 2), whole(), Some(1))),
        "Parallel app prove failed: prover_id 2 must be less than num_provers 2"
    );
    assert_eq!(
        refusal(start(AppJobKind::Parallel, job(2, 1), gone(), None)),
        "Parallel app prove failed: Failed to read input file /p/input.bin: gone"
    );
    assert!(refusal(start(AppJobKind::Sharded, job(2, 1), whole(), None))
        .starts_with("Sharded app prove failed: Deferral job received (1 circuits)"));
    let input = start(AppJobKind::Sharded, job(2, 1), whole(), Some(1)).unwrap();
    assert_eq!(input.chunks, vec![vec![1u32, 2, 255], vec![]]);
    assert!(holds(&input.deferrals[0], 7));
}

#[test]
fn compact_uploads_are_executed_as_one_piece() {
    let staged =
        prepare_uploaded_input_bytes(UploadedInputFormat::CompactBytes, &[9, 0, 255]).unwrap();
    let input = build_execution_stdin(&staged, &vec![], &vec![], loaded(None)).unwrap();
    assert_eq!(input.chunks, vec![vec![9u32, 0, 255]]);
    assert!(input.deferrals.is_empty());
}
