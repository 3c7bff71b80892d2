use edge_worker::janitor::{
    is_reclaimed, reclaim_candidate, sweep, sweep_entry, ActiveUploads, EntryFacts, SweptEntry,
};
use edge_worker::uploads::{
    after_write, begin_bundle, begin_upload, bundle_done, is_no_space_error, join_path,
    prepare_uploaded_input_bytes, stage_bundle, staged_deferral_input_path,
    staged_deferral_state_path, staged_input_path, upload_done, uploaded_input_proof_uuid_from_path,
    uploaded_input_root, uploaded_input_work_dir, validate_uploaded_proof_uuid,
    DeferralArtifactKind, UploadedInputFormat, WriteOutcome, WriteStep, DEFERRAL_WRITE_FAILURE,
    INPUT_WRITE_FAILURE, MAX_PROOF_UUID_LEN,
};
use openvm_sdk::StdIn;

#[test]
fn proof_uuid_validation_rejects_empty_and_invalid_chars() {
    for proof_uuid in [
        "",
        "with/slash",
        "with\\slash",
        "with.dot",
        "with space",
        "colon:bad",
    ] {
        assert!(
            validate_uploaded_proof_uuid(proof_uuid).is_err(),
            "{proof_uuid:?} should be rejected"
        );
    }
}

#[test]
fn proof_uuid_validation_accepts_allowlist_and_enforces_length_cap() {
    assert!(validate_uploaded_proof_uuid("proof-ABC_123").is_ok());
    assert!(validate_uploaded_proof_uuid(&"a".repeat(MAX_PROOF_UUID_LEN)).is_ok());
    assert!(validate_uploaded_proof_uuid(&"a".repeat(MAX_PROOF_UUID_LEN + 1)).is_err());
}

#[test]
fn staged_deferral_paths_share_uploaded_input_root() {
    let state = staged_deferral_state_path("proof-abc", 0);
    let input = staged_deferral_input_path("proof-abc", 2);
    assert!(state.starts_with(uploaded_input_root()));
    assert!(input.starts_with(uploaded_input_root()));
    assert!(state
        .rsplit('/')
        .next()
        .map(|n| n.contains("deferral_state_0"))
        .unwrap_or(false));
    assert!(input
        .rsplit('/')
        .next()
        .map(|n| n.contains("deferral_input_2"))
        .unwrap_or(false));
    assert_eq!(state, "/dev/shm/edge_proof-abc/deferral_state_0.bin");
    assert_eq!(input, "/dev/shm/edge_proof-abc/deferral_input_2.bin");
    assert_eq!(staged_input_path("proof-abc"), "/dev/shm/edge_proof-abc/input.bin");
}

#[test]
fn compact_upload_serializes_to_same_stdin_as_bincode_mode() {
    let raw_input = vec![1u8, 2, 3, 4, 5, 6, 7];

    let compact =
        prepare_uploaded_input_bytes(UploadedInputFormat::CompactBytes, &raw_input).unwrap();
    let direct = prepare_uploaded_input_bytes(UploadedInputFormat::BincodeStdin, &{
        let mut stdin: StdIn = StdIn::default();
        stdin.write_bytes(&raw_input);
        bincode::serialize(&stdin).unwrap()
    })
    .unwrap();

    assert_eq!(compact, direct);
    assert_ne!(compact, raw_input);
}

#[test]
fn work_dirs_are_found_again_by_name() {
    assert_eq!(uploaded_input_work_dir("/data", "p-1"), "/data/edge_p-1");
    assert_eq!(uploaded_input_work_dir("/data/", "p-1"), "/data/edge_p-1");
    assert_eq!(uploaded_input_proof_uuid_from_path("edge_p-1"), Some("p-1".to_string()));
    assert_eq!(uploaded_input_proof_uuid_from_path("other"), None);
    assert_eq!(uploaded_input_proof_uuid_from_path("edge_"), Some(String::new()));
    assert_eq!(join_path("", "x"), "x");
}

#[test]
fn sweep_only_reclaims_old_inactive_dirs() {
    let mut active = ActiveUploads::new();
    active.activate("active-proof");
    let entry = |name: &str, facts: EntryFacts| SweptEntry { file_name: name.to_string(), facts };
    let old = || EntryFacts::Directory { age_nanos: 25_000_000 };
    let ttl: u128 = 10_000_000;

    assert!(sweep_entry(&entry("edge_stale-proof", old()), &active, ttl));
    assert!(!sweep_entry(&entry("edge_active-proof", old()), &active, ttl));
    assert!(!sweep_entry(
        &entry("edge_fresh-proof", EntryFacts::Directory { age_nanos: 9_999_999 }),
        &active,
        ttl
    ));
    assert!(sweep_entry(
        &entry("edge_just-stale", EntryFacts::Directory { age_nanos: 10_000_000 }),
        &active,
        ttl
    ));
    assert!(!sweep_entry(&entry("unrelated", old()), &active, ttl));
    assert!(!sweep_entry(&entry("edge_file", EntryFacts::NotADirectory), &active, ttl));
    assert!(!sweep_entry(&entry("edge_gone", EntryFacts::Unreadable), &active, ttl));
}

#[test]
fn a_sweep_finds_every_stale_entry_once() {
    let mut active = ActiveUploads::new();
    active.activate("b");
    let entries: Vec<SweptEntry> = ["edge_a", "edge_b", "other", "edge_c", "edge_a"]
        .iter()
        .map(|name| SweptEntry {
            file_name: name.to_string(),
            facts: EntryFacts::Directory { age_nanos: 5 },
        })
        .collect();
    assert_eq!(sweep(&entries, &active, 5), vec![0, 3, 4]);
    assert_eq!(sweep(&entries, &active, 6), Vec::<usize>::new());
    assert_eq!(sweep(&vec![], &active, 0), Vec::<usize>::new());
}

#[test]
fn a_released_proof_is_swept_again() {
    let mut active = ActiveUploads::new();
    active.activate("p");
    active.activate("q");
    assert!(active.is_active("p"));
    assert_eq!(reclaim_candidate("edge_p", &active), None);
    assert_eq!(active.release("/dev/shm", "p"), "/dev/shm/edge_p");
    assert!(!active.is_active("p"));
    assert!(active.is_active("q"));
    assert_eq!(reclaim_candidate("edge_p", &active), Some("p".to_string()));
    assert!(is_reclaimed("p", EntryFacts::Directory { age_nanos: 5 }, 5, &active));
    active.activate("p");
    assert!(!is_reclaimed("p", EntryFacts::Directory { age_nanos: 5 }, 5, &active));
}

#[test]
fn uploads_are_staged_under_a_temporary_name() {
    let file = begin_upload("p-1", &[9, 8], UploadedInputFormat::BincodeStdin).unwrap_or_else(
        |e| panic!("refused: {}", e.body),
    );
    assert_eq!(file.dir, "/dev/shm/edge_p-1");
    assert_eq!(file.path, "/dev/shm/edge_p-1/input.bin");
    assert!(file.temp_path.starts_with("/dev/shm/edge_p-1/"));
    assert_ne!(file.temp_path, file.path);
    assert_eq!(file.data, vec![9, 8]);

    match begin_upload("bad uuid", &[], UploadedInputFormat::CompactBytes) {
        Err(reply) => {
            assert_eq!(reply.status, 400);
            assert!(reply.body.starts_with("Invalid proof_uuid: "));
        }
        Ok(_) => panic!("a bad uuid must be refused"),
    }
    assert_eq!((upload_done().status, upload_done().body.as_str()), (200, "Input file received"));
    assert_eq!(bundle_done().body, "Deferral artifacts received");
}

#[test]
fn a_full_disk_is_retried_once() {
    assert!(is_no_space_error(Some(28)));
    assert!(!is_no_space_error(Some(2)));
    assert!(!is_no_space_error(None));
    let full = || WriteOutcome::Failed { os_error: Some(28), text: "no space".to_string() };
    assert!(matches!(after_write(WriteOutcome::Written, false, INPUT_WRITE_FAILURE), WriteStep::Staged));
    assert!(matches!(after_write(full(), false, INPUT_WRITE_FAILURE), WriteStep::ReclaimAndRetry));
    match after_write(full(), true, INPUT_WRITE_FAILURE) {
        WriteStep::Failed(reply) => {
            assert_eq!(reply.status, 500);
            assert_eq!(reply.body, "Failed to write input: no space");
        }
        _ => panic!("a second failure is final"),
    }
    let denied = WriteOutcome::Failed { os_error: Some(13), text: "denied".to_string() };
    match after_write(denied, false, DEFERRAL_WRITE_FAILURE) {
        WriteStep::Failed(reply) => {
            assert_eq!(reply.body, "Failed to write deferral artifact: denied")
        }
        _ => panic!("another failure is final"),
    }
}

#[test]
fn bundles_are_staged_one_file_per_circuit() {
    let body = bincode::serialize(&vec![vec![1u8, 2], vec![], vec![3]]).unwrap();
    let files = begin_bundle("p", &body, DeferralArtifactKind::State, 3)
        .unwrap_or_else(|e| panic!("refused: {}", e.body));
    assert_eq!(files.len(), 3);
    assert_eq!(files[0].path, "/dev/shm/edge_p/deferral_state_0.bin");
    assert_eq!(files[2].path, "/dev/shm/edge_p/deferral_state_2.bin");
    assert_eq!(files[0].data, vec![1, 2]);
    assert_eq!(files[1].data, Vec::<u8>::new());
    assert_eq!(files[2].data, vec![3]);

    match begin_bundle("p", &body, DeferralArtifactKind::Input, 2) {
        Err(reply) => assert_eq!(
            reply.body,
            "upload_deferral_input: got 3 artifact(s) but the loaded deferral keyset expects 2"
        ),
        Ok(_) => panic!("a wrong count must be refused"),
    }
    match begin_bundle("p", &body[..body.len() - 1], DeferralArtifactKind::State, 3) {
        Err(reply) => {
            assert_eq!(reply.status, 400);
            assert!(reply.body.starts_with(
                "upload_deferral_state: malformed bundle (expected bincode Vec<Vec<u8>>): "
            ));
        }
        Ok(_) => panic!("a truncated bundle must be refused"),
    }
    assert!(begin_bundle("a.b", &body, DeferralArtifactKind::State, 3).is_err());
}

#[test]
fn a_worker_without_circuits_takes_no_bundle() {
    for items in [vec![], vec![vec![1u8]]] {
        let n = items.len();
        let body = bincode::serialize(&items).unwrap();
        let text = format!(
            "upload_deferral_state: got {n} artifact(s) but the loaded deferral keyset expects 0"
        );
        match begin_bundle("p", &body, DeferralArtifactKind::State, 0) {
            Err(reply) => assert_eq!((reply.status, reply.body), (400, text.clone())),
            Ok(_) => panic!("{n} artifacts must be refused"),
        }
        match stage_bundle("p", DeferralArtifactKind::State, items, 0) {
            Err(reply) => assert_eq!((reply.status, reply.body), (400, text)),
            Ok(_) => panic!("{n} artifacts must be refused"),
        }
    }
}

#[test]
fn what_follows_a_bundle_is_not_read() {
    let items = vec![vec![1u8, 2], vec![]];
    let mut body = bincode::serialize(&items).unwrap();
    body.extend([9u8; 20]);
    let files = begin_bundle("p", &body, DeferralArtifactKind::Input, 2)
        .unwrap_or_else(|e| panic!("refused: {}", e.body));
    let staged: Vec<Vec<u8>> = files.into_iter().map(|f| f.data).collect();
    assert_eq!(staged, items);
}
