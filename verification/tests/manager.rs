use edge_worker::artifacts::ArtifactStatus;
use edge_worker::program::ProgramRef;
use edge_worker::requests::WorkerRole;
use edge_worker::result_client::{
    confirmed_worker_id, error_submitted, read_confirmed_worker_id, registration_answered, registration_request,
    result_submitted, worker_id_from, Answer, ResultClient,
};
use edge_worker::results::{ErrorResult, ProofResult};
use edge_worker::context::ProofContext;
use edge_worker::server::{
    app_context_source, check_app_context, check_worker_id, collect_instances, AppContextSource,
    InstanceBuild, REGISTRATION_INTERVAL,
};

#[test]
fn test_result_client_creation() {
    let client = ResultClient::new("http://localhost:3000", 0);
    assert_eq!(client.manager_url, "http://localhost:3000");
}

#[test]
fn test_result_client_strips_trailing_slash() {
    let client = ResultClient::new("http://localhost:3000/", 0);
    assert_eq!(client.manager_url, "http://localhost:3000");
}

#[test]
fn endpoints_are_joined_by_one_slash() {
    let client = ResultClient::new("http://m:1///", 6);
    assert_eq!(client.result_url(), "http://m:1/proof_result");
    assert_eq!(client.register_url(), "http://m:1/register_worker");
    assert_eq!(client.health_url(), "http://m:1/healthz");
    assert_eq!(client.worker_id(), 6);
    assert_eq!(ResultClient::new("///", 0).manager_url, "");
}

fn error(text: &str) -> ProofResult {
    ProofResult::Error(ErrorResult {
        context: ProofContext::new("u".to_string(), ProgramRef::new("a", 1), Default::default()),
        step: "x".to_string(),
        error: text.to_string(),
    })
}

#[test]
fn payloads_carry_results_in_order() {
    let client = ResultClient::new("http://m", 3);
    let payloads = client.result_payloads("u-1", vec![error("1"), error("2")]);
    assert_eq!(payloads.len(), 2);
    for (i, p) in payloads.iter().enumerate() {
        assert_eq!(p.worker_id, 3);
        assert_eq!(p.proof_uuid, "u-1");
        match &p.result {
            ProofResult::Error(e) => assert_eq!(e.error, format!("{}", i + 1)),
            _ => panic!("the result stays"),
        }
    }
    let payload = client.error_payload("u-2", "broken");
    match payload.result {
        ProofResult::Error(e) => {
            assert_eq!(e.step, "unknown");
            assert_eq!(e.error, "broken");
            assert_eq!(e.context.proof_uuid, "u-2");
            assert_eq!(e.context.program, ProgramRef::new("", 0));
            assert!(e.context.labels.is_empty());
        }
        _ => panic!("an error is posted as one"),
    }
}

#[test]
fn answers_other_than_success_are_errors() {
    let answer = |status: u16, shown: &str| Answer {
        status,
        shown: shown.to_string(),
        body: "nope".to_string(),
    };
    assert!(result_submitted(&answer(200, "200 OK")).is_ok());
    assert!(error_submitted(&answer(299, "299")).is_ok());
    assert!(registration_answered(&answer(204, "204 No Content")).is_ok());
    assert_eq!(
        result_submitted(&answer(500, "500 Internal Server Error")),
        Err("Failed to submit result: status=500 Internal Server Error, body=nope".to_string())
    );
    assert_eq!(
        error_submitted(&answer(300, "300")),
        Err("Failed to submit error: status=300, body=nope".to_string())
    );
    assert_eq!(
        registration_answered(&answer(199, "199")),
        Err("Failed to register: status=199, body=nope".to_string())
    );
}

#[test]
fn the_confirmed_id_is_read_from_the_answer() {
    let body = |text: &str| serde_json::from_str::<serde_json::Value>(text).unwrap();
    assert_eq!(confirmed_worker_id(&body(r#"{"worker_id": 12, "x": 1}"#)), Ok(12));
    let missing = Err("Missing worker_id in registration response".to_string());
    assert_eq!(confirmed_worker_id(&body(r#"{"id": 12}"#)), missing);
    assert_eq!(confirmed_worker_id(&body(r#"{"worker_id": "12"}"#)), missing);
    assert_eq!(confirmed_worker_id(&body(r#"{"worker_id": -1}"#)), missing);
    assert_eq!(confirmed_worker_id(&body("[12]")), missing);
    assert_eq!(worker_id_from(Some(4)), Ok(4));
    assert_eq!(worker_id_from(None), missing);
    assert_eq!(read_confirmed_worker_id(r#" {"worker_id": 7} "#), Ok(7));
    assert_eq!(read_confirmed_worker_id("7"), missing);
    let cause = serde_json::from_str::<serde_json::Value>("{").unwrap_err().to_string();
    assert_eq!(read_confirmed_worker_id("{"), Err(cause));
}

#[test]
fn registrations_mirror_the_worker() {
    let request = registration_request(
        "http://w",
        5,
        4,
        3,
        2,
        vec![ProgramRef::new("a", 1)],
        WorkerRole::StarkOnly,
    );
    assert_eq!(request.worker_url, "http://w");
    assert_eq!(
        (
            request.worker_id,
            request.max_app_provers,
            request.max_leaf_provers,
            request.max_internal_provers
        ),
        (5, 4, 3, 2)
    );
    assert_eq!(request.loaded_programs, vec![ProgramRef::new("a", 1)]);
    assert_eq!(request.worker_role, WorkerRole::StarkOnly);
    assert_eq!(REGISTRATION_INTERVAL, 30);
    assert!(check_worker_id(5, 5).is_ok());
    assert_eq!(
        check_worker_id(6, 5),
        Err("manager returned worker_id 6 but config prover_id is 5".to_string())
    );
}

#[test]
fn the_app_context_follows_loadout_and_role() {
    assert_eq!(app_context_source(0, WorkerRole::Full), AppContextSource::Registration);
    assert_eq!(app_context_source(0, WorkerRole::EvmDedicated), AppContextSource::Registration);
    assert_eq!(app_context_source(2, WorkerRole::StarkOnly), AppContextSource::Loadout);
    assert_eq!(app_context_source(2, WorkerRole::EvmDedicated), AppContextSource::NotNeeded);
    assert_eq!(
        check_app_context(ArtifactStatus::NoStore),
        Err("ArtifactStore not initialized before app worker context build".to_string())
    );
    assert_eq!(
        check_app_context(ArtifactStatus::NotLoaded),
        Err("Edge artifacts not loaded".to_string())
    );
    let loaded = ArtifactStatus::Loaded { has_evm: false, deferral_circuits: None };
    assert!(check_app_context(loaded).is_ok());
}

#[test]
fn the_first_failed_build_fails_them_all() {
    let programs = vec![ProgramRef::new("a", 1), ProgramRef::new("b", 2), ProgramRef::new("c", 3)];
    let all = vec![InstanceBuild::Built(1), InstanceBuild::Built(2), InstanceBuild::Built(3)];
    assert_eq!(collect_instances(&programs, all), Ok(vec![1, 2, 3]));
    let missing = vec![
        InstanceBuild::Built(1),
        InstanceBuild::ProgramMissing,
        InstanceBuild::Failed("late".to_string()),
    ];
    assert_eq!(
        collect_instances(&programs, missing),
        Err("vmexe for b@v2 missing from artifact store".to_string())
    );
    let failed: Vec<InstanceBuild<u8>> = vec![
        InstanceBuild::Failed("gcc".to_string()),
        InstanceBuild::ProgramMissing,
        InstanceBuild::Built(3),
    ];
    assert_eq!(collect_instances(&programs, failed), Err("gcc".to_string()));
}
