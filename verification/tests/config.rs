use edge_worker::config::{
    default_app_provers, default_halo2_provers, default_internal_provers, default_leaf_provers,
    default_log_level, default_root_provers, ArtifactsConfig, ConfigError, ProversConfig,
    ServerConfig, TelemetryConfig, WorkerConfig, WorkerSettings,
};
use edge_worker::requests::WorkerRole;

fn number(table: &toml::Value, key: &str) -> Option<usize> {
    table.get(key).map(|v| v.as_integer().unwrap() as usize)
}

fn string(table: &toml::Value, key: &str) -> Option<String> {
    table.get(key).map(|v| v.as_str().unwrap().to_string())
}

fn role(name: Option<String>) -> WorkerRole {
    match name.as_deref() {
        None => WorkerRole::default(),
        Some("full") => WorkerRole::Full,
        Some("stark_only") => WorkerRole::StarkOnly,
        Some("evm_dedicated") => WorkerRole::EvmDedicated,
        Some(other) => panic!("unknown role {other}"),
    }
}

fn read(text: &str) -> WorkerConfig {
    let doc: toml::Value = toml::from_str(text).unwrap();
    let worker = &doc["worker"];
    let artifacts = &doc["artifacts"];
    let provers = &doc["provers"];
    let telemetry = &doc["telemetry"];
    WorkerConfig {
        server: ServerConfig { listen_addr: string(&doc["server"], "listen_addr").unwrap() },
        worker: WorkerSettings {
            prover_id: number(worker, "prover_id").unwrap(),
            num_provers: number(worker, "num_provers").unwrap(),
            worker_url: string(worker, "worker_url"),
            manager_url: string(worker, "manager_url").unwrap(),
            worker_role: role(string(worker, "worker_role")),
        },
        artifacts: ArtifactsConfig {
            artifacts_path: string(artifacts, "artifacts_path"),
            halo2_pk_path: string(artifacts, "halo2_pk_path"),
            enable_deferral: false,
        },
        provers: ProversConfig {
            max_app_provers: number(provers, "max_app_provers").unwrap_or_else(default_app_provers),
            max_leaf_provers: number(provers, "max_leaf_provers")
                .unwrap_or_else(default_leaf_provers),
            max_internal_provers: number(provers, "max_internal_provers")
                .unwrap_or_else(default_internal_provers),
            max_root_provers: number(provers, "max_root_provers")
                .unwrap_or_else(default_root_provers),
            max_halo2_provers: number(provers, "max_halo2_provers")
                .unwrap_or_else(default_halo2_provers),
            default_segment_memory: number(provers, "default_segment_memory"),
        },
        telemetry: TelemetryConfig {
            log_level: string(telemetry, "log_level").unwrap_or_else(default_log_level),
            otlp_endpoint: string(telemetry, "otlp_endpoint"),
        },
    }
}

fn refusal(config: WorkerConfig) -> String {
    match config.load() {
        Ok(_) => panic!("expected the configuration to be refused"),
        Err(e) => e.message(),
    }
}

fn accepted(config: WorkerConfig) -> WorkerConfig {
    match config.load() {
        Ok(config) => config,
        Err(e) => panic!("unexpected error: {}", e.message()),
    }
}

#[test]
fn test_load_config() {
    let config_content = r#"
[server]
listen_addr = "0.0.0.0:8001"

[worker]
prover_id = 0
num_provers = 4
manager_url = "http://localhost:3000"

[artifacts]

[provers]
max_app_provers = 4
max_leaf_provers = 2
max_internal_provers = 2

[telemetry]
log_level = "info"
"#;
    let config = accepted(read(config_content));
    assert_eq!(config.server.listen_addr, "0.0.0.0:8001");
    assert_eq!(config.worker.prover_id, 0);
    assert_eq!(config.worker.num_provers, 4);
    assert_eq!(config.provers.max_app_provers, 4);
    assert_eq!(config.worker.worker_role, WorkerRole::Full);
}

#[test]
fn test_worker_role_parses_from_toml() {
    let config_content = r#"
[server]
listen_addr = "0.0.0.0:8001"

[worker]
prover_id = 0
num_provers = 4
manager_url = "http://localhost:3000"
worker_role = "evm_dedicated"

[artifacts]

[provers]
max_app_provers = 0
max_leaf_provers = 0
max_internal_provers = 0

[telemetry]
"#;
    let config = accepted(read(config_content));
    assert_eq!(config.worker.worker_role, WorkerRole::EvmDedicated);
}

#[test]
fn test_evm_dedicated_permits_zero_app_provers() {
    let config_content = r#"
[server]
listen_addr = "0.0.0.0:8001"

[worker]
prover_id = 0
num_provers = 4
manager_url = "http://localhost:3000"
worker_role = "evm_dedicated"

[artifacts]

[provers]
max_app_provers = 0
max_leaf_provers = 0
max_internal_provers = 0

[telemetry]
"#;
    let config = accepted(read(config_content));
    assert_eq!(config.provers.max_app_provers, 0);
    assert_eq!(config.worker.worker_role, WorkerRole::EvmDedicated);
}

#[test]
fn test_evm_dedicated_rejects_nonzero_app_leaf_internal() {
    let config_content = r#"
[server]
listen_addr = "0.0.0.0:8001"

[worker]
prover_id = 3
num_provers = 4
manager_url = "http://localhost:3000"
worker_role = "evm_dedicated"

[artifacts]

[provers]
max_app_provers = 4
max_leaf_provers = 2
max_internal_provers = 1

[telemetry]
"#;
    let err = refusal(read(config_content));
    assert!(
        err.contains("EvmDedicated worker must set app/leaf/internal capacity to 0"),
        "unexpected error: {err}"
    );
}

#[test]
fn test_evm_dedicated_requires_root_and_halo2_capacity() {
    let config_content = r#"
[server]
listen_addr = "0.0.0.0:8001"

[worker]
prover_id = 0
num_provers = 4
manager_url = "http://localhost:3000"
worker_role = "evm_dedicated"

[artifacts]

[provers]
max_app_provers = 0
max_root_provers = 0

[telemetry]
"#;
    let err = refusal(read(config_content));
    assert!(
        err.contains("EvmDedicated worker requires root + halo2 capacity"),
        "unexpected error: {err}"
    );
}

#[test]
fn test_stark_only_validates_without_halo2_and_requires_app_provers() {
    let config_content = r#"
[server]
listen_addr = "0.0.0.0:8001"

[worker]
prover_id = 0
num_provers = 4
manager_url = "http://localhost:3000"
worker_role = "stark_only"

[artifacts]

[provers]
max_app_provers = 2

[telemetry]
"#;
    let config = accepted(read(config_content));
    assert_eq!(config.worker.worker_role, WorkerRole::StarkOnly);
    assert!(config.artifacts.halo2_pk_path.is_none());
    assert_eq!(config.provers.max_app_provers, 2);
}

#[test]
fn test_stark_only_rejects_zero_app_provers() {
    let config_content = r#"
[server]
listen_addr = "0.0.0.0:8001"

[worker]
prover_id = 0
num_provers = 4
manager_url = "http://localhost:3000"
worker_role = "stark_only"

[artifacts]

[provers]
max_app_provers = 0

[telemetry]
"#;
    let err = refusal(read(config_content));
    assert!(err.contains("provers.max_app_provers must be > 0"), "unexpected error: {err}");
}

#[test]
fn test_full_rejects_zero_app_provers_unchanged() {
    let config_content = r#"
[server]
listen_addr = "0.0.0.0:8001"

[worker]
prover_id = 0
num_provers = 4
manager_url = "http://localhost:3000"

[artifacts]

[provers]
max_app_provers = 0

[telemetry]
"#;
    let err = refusal(read(config_content));
    assert!(err.contains("provers.max_app_provers must be > 0"), "unexpected error: {err}");
}

#[test]
fn test_invalid_prover_id() {
    let config_content = r#"
[server]
listen_addr = "0.0.0.0:8001"

[worker]
prover_id = 5
num_provers = 4
manager_url = "http://localhost:3000"

[artifacts]

[provers]

[telemetry]
"#;
    let config = read(config_content);
    assert!(config.validate().is_err());
    assert!(matches!(
        config.load(),
        Err(ConfigError::ProverIdOutOfRange { prover_id: 5, num_provers: 4 })
    ));
}

#[test]
fn test_prover_config_defaults() {
    let config = ProversConfig::default();
    assert_eq!(config.max_app_provers, 2);
    assert_eq!(config.max_leaf_provers, 2);
    assert_eq!(config.max_internal_provers, 1);
    assert_eq!(config.max_root_provers, 1);
    assert_eq!(config.max_halo2_provers, 1);
    assert_eq!(config.default_segment_memory, None);
}

#[test]
fn worker_url_falls_back_to_the_listen_address() {
    let text = r#"
[server]
listen_addr = "0.0.0.0:8001"
[worker]
prover_id = 0
num_provers = 1
manager_url = "http://localhost:3000"
[artifacts]
[provers]
[telemetry]
"#;
    let mut config = read(text);
    assert_eq!(config.effective_worker_url(), "http://127.0.0.1:8001");
    config.server.listen_addr = "10.1.2.3:9000".to_string();
    assert_eq!(config.effective_worker_url(), "http://10.1.2.3:9000");
    for (listen_addr, url) in [
        ("10.0.0.0:8001", "http://10.0.0.0:8001"),
        ("0.0.0.0", "http://127.0.0.1"),
        ("0.0.0.0:0", "http://127.0.0.1:0"),
        ("0.0.0.00:1", "http://0.0.0.00:1"),
        ("", "http://"),
    ] {
        config.server.listen_addr = listen_addr.to_string();
        assert_eq!(config.effective_worker_url(), url);
    }
    config.worker.worker_url = Some("http://worker-3".to_string());
    assert_eq!(config.effective_worker_url(), "http://worker-3");
    assert_eq!(config.telemetry.log_level, "info");
}
