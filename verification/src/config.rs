//! Worker configuration.

use vstd::prelude::*;
use vstd::string::*;

use crate::requests::WorkerRole;
use crate::text::{begins_with, decimal, push_usize, starts_with, strip_prefix};

verus! {

/// Worker configuration.
#[derive(Debug)]
pub struct WorkerConfig {
    pub server: ServerConfig,
    pub worker: WorkerSettings,
    pub artifacts: ArtifactsConfig,
    pub provers: ProversConfig,
    pub telemetry: TelemetryConfig,
}

/// HTTP server configuration.
#[derive(Debug)]
pub struct ServerConfig {
    /// HTTP listen address (e.g. `0.0.0.0:8001`).
    pub listen_addr: String,
}

/// Worker settings.
#[derive(Debug)]
pub struct WorkerSettings {
    /// Worker id (0-indexed, unique per worker).
    pub prover_id: usize,
    /// Total number of workers in the pool.
    pub num_provers: usize,
    /// This worker's URL for manager registration.
    pub worker_url: Option<String>,
    /// Manager URL for registration and result submission.
    pub manager_url: String,
    /// Deployment role this worker plays.
    pub worker_role: WorkerRole,
}

/// Artifacts configuration.
#[derive(Debug)]
pub struct ArtifactsConfig {
    /// Base path for artifact files.
    pub artifacts_path: Option<String>,
    /// Directory holding the halo2 proving key and its parameter files.
    pub halo2_pk_path: Option<String>,
    /// Whether the worker loads the deferral keyset.
    pub enable_deferral: bool,
}

/// Prover thread pool configuration.
#[derive(Debug, Clone, Copy, PartialEq, Eq)]
pub struct ProversConfig {
    /// Number of app prover instances, also the maximum app-prove parallelism of a
    /// single proof on this worker.
    pub max_app_provers: usize,
    /// Number of leaf prover threads.
    pub max_leaf_provers: usize,
    /// Number of internal prover threads.
    pub max_internal_provers: usize,
    /// Number of root prover threads.
    pub max_root_provers: usize,
    /// Number of halo2 prover threads.
    pub max_halo2_provers: usize,
    /// Default VM memory limit applied when a request does not set one.
    pub default_segment_memory: Option<usize>,
}

pub fn default_app_provers() -> (r: usize)
    ensures
        r == 2,
{
    2
}

pub fn default_leaf_provers() -> (r: usize)
    ensures
        r == 2,
{
    2
}

pub fn default_internal_provers() -> (r: usize)
    ensures
        r == 1,
{
    1
}

pub fn default_root_provers() -> (r: usize)
    ensures
        r == 1,
{
    1
}

pub fn default_halo2_provers() -> (r: usize)
    ensures
        r == 1,
{
    1
}

impl Default for ProversConfig {
    fn default() -> (r: Self)
        ensures
            r.max_app_provers == 2,
            r.max_leaf_provers == 2,
            r.max_internal_provers == 1,
            r.max_root_provers == 1,
            r.max_halo2_provers == 1,
            r.default_segment_memory is None,
    {
        ProversConfig {
            max_app_provers: default_app_provers(),
            max_leaf_provers: default_leaf_provers(),
            max_internal_provers: default_internal_provers(),
            max_root_provers: default_root_provers(),
            max_halo2_provers: default_halo2_provers(),
            default_segment_memory: None,
        }
    }
}

/// Telemetry configuration.
#[derive(Debug)]
pub struct TelemetryConfig {
    /// Log level (trace, debug, info, warn, error).
    pub log_level: String,
    /// OpenTelemetry collector endpoint.
    pub otlp_endpoint: Option<String>,
}

pub fn default_log_level() -> (r: String)
    ensures
        r@ == "info"@,
{
    "info".to_owned()
}

impl Default for TelemetryConfig {
    fn default() -> (r: Self)
        ensures
            r.log_level@ == "info"@,
            r.otlp_endpoint is None,
    {
        TelemetryConfig { log_level: default_log_level(), otlp_endpoint: None }
    }
}

/// A configuration that a worker cannot run with.
#[derive(Debug, Clone, Copy, PartialEq, Eq, Structural)]
pub enum ConfigError {
    ProverIdOutOfRange { prover_id: usize, num_provers: usize },
    NoAppProvers,
    NoEvmCapacity { root: usize, halo2: usize },
    StrayStarkCapacity { app: usize, leaf: usize, internal: usize },
}

impl ConfigError {
    /// The text a reader is shown for the error.
    pub open spec fn text(self) -> Seq<char> {
        match self {
            ConfigError::ProverIdOutOfRange { prover_id, num_provers } => "worker.prover_id ("@
                + decimal(prover_id as nat) + ") must be < worker.num_provers ("@ + decimal(
                num_provers as nat,
            ) + ")"@,
            ConfigError::NoAppProvers => "provers.max_app_provers must be > 0"@,
            ConfigError::NoEvmCapacity { root, halo2 } =>
                "EvmDedicated worker requires root + halo2 capacity: provers.max_root_provers ("@
                + decimal(root as nat) + ") and provers.max_halo2_provers ("@ + decimal(
                halo2 as nat,
            ) + ") must both be > 0"@,
            ConfigError::StrayStarkCapacity { app, leaf, internal } =>
                "EvmDedicated worker must set app/leaf/internal capacity to 0 (got app="@
                + decimal(app as nat) + ", leaf="@ + decimal(leaf as nat) + ", internal="@
                + decimal(internal as nat) + "); this role runs only root + halo2"@,
        }
    }

    /// The text a reader is shown for the error.
    pub fn message(self) -> (r: String)
        ensures
            r@ == self.text(),
    {
        match self {
            ConfigError::ProverIdOutOfRange { prover_id, num_provers } => {
                let mut out = "worker.prover_id (".to_owned();
                push_usize(&mut out, prover_id);
                out.append(") must be < worker.num_provers (");
                push_usize(&mut out, num_provers);
                out.append(")");
                out
            },
            ConfigError::NoAppProvers => "provers.max_app_provers must be > 0".to_owned(),
            ConfigError::NoEvmCapacity { root, halo2 } => {
                let mut out =
                    "EvmDedicated worker requires root + halo2 capacity: provers.max_root_provers (".to_owned();
                push_usize(&mut out, root);
                out.append(") and provers.max_halo2_provers (");
                push_usize(&mut out, halo2);
                out.append(") must both be > 0");
                out
            },
            ConfigError::StrayStarkCapacity { app, leaf, internal } => {
                let mut out =
                    "EvmDedicated worker must set app/leaf/internal capacity to 0 (got app=".to_owned();
                push_usize(&mut out, app);
                out.append(", leaf=");
                push_usize(&mut out, leaf);
                out.append(", internal=");
                push_usize(&mut out, internal);
                out.append("); this role runs only root + halo2");
                out
            },
        }
    }
}

/// Why a worker cannot run with these settings, if it cannot.
pub open spec fn config_rejection(
    prover_id: usize,
    num_provers: usize,
    role: WorkerRole,
    provers: ProversConfig,
) -> Option<ConfigError> {
    if prover_id >= num_provers {
        Some(ConfigError::ProverIdOutOfRange { prover_id, num_provers })
    } else if role != WorkerRole::EvmDedicated {
        if provers.max_app_provers == 0 {
            Some(ConfigError::NoAppProvers)
        } else {
            None
        }
    } else if provers.max_root_provers == 0 || provers.max_halo2_provers == 0 {
        Some(
            ConfigError::NoEvmCapacity {
                root: provers.max_root_provers,
                halo2: provers.max_halo2_provers,
            },
        )
    } else if provers.max_app_provers != 0 || provers.max_leaf_provers != 0
        || provers.max_internal_provers != 0 {
        Some(
            ConfigError::StrayStarkCapacity {
                app: provers.max_app_provers,
                leaf: provers.max_leaf_provers,
                internal: provers.max_internal_provers,
            },
        )
    } else {
        None
    }
}

/// Whether a listen address binds every interface, with or without a port.
pub open spec fn binds_all(addr: Seq<char>) -> bool {
    addr == "0.0.0.0"@ || begins_with(addr, "0.0.0.0:"@)
}

impl WorkerConfig {
    /// Why a worker cannot run with this configuration, if it cannot.
    pub open spec fn rejection(self) -> Option<ConfigError> {
        config_rejection(
            self.worker.prover_id,
            self.worker.num_provers,
            self.worker.worker_role,
            self.provers,
        )
    }

    /// Check a configuration that was just read, and hand it on.
    pub fn load(self) -> (r: Result<WorkerConfig, ConfigError>)
        ensures
            self.rejection() is None ==> r is Ok && r->Ok_0 == self,
            self.rejection() matches Some(e) ==> r is Err && r->Err_0 == e,
    {
        match self.validate() {
            Ok(()) => Ok(self),
            Err(e) => Err(e),
        }
    }

    /// Validate the configuration.
    ///
    /// A role that runs app, leaf and internal proving needs app-prover capacity. A
    /// dedicated EVM worker needs root and halo2 capacity, and must claim none of the
    /// other kinds.
    pub fn validate(&self) -> (r: Result<(), ConfigError>)
        ensures
            self.rejection() is None ==> r is Ok,
            self.rejection() matches Some(e) ==> r == Err::<(), ConfigError>(e),
    {
        if self.worker.prover_id >= self.worker.num_provers {
            return Err(
                ConfigError::ProverIdOutOfRange {
                    prover_id: self.worker.prover_id,
                    num_provers: self.worker.num_provers,
                },
            );
        }
        match self.worker.worker_role {
            WorkerRole::Full | WorkerRole::StarkOnly => {
                if self.provers.max_app_provers == 0 {
                    return Err(ConfigError::NoAppProvers);
                }
            },
            WorkerRole::EvmDedicated => {
                if self.provers.max_root_provers == 0 || self.provers.max_halo2_provers == 0 {
                    return Err(
                        ConfigError::NoEvmCapacity {
                            root: self.provers.max_root_provers,
                            halo2: self.provers.max_halo2_provers,
                        },
                    );
                }
                if self.provers.max_app_provers != 0 || self.provers.max_leaf_provers != 0
                    || self.provers.max_internal_provers != 0 {
                    return Err(
                        ConfigError::StrayStarkCapacity {
                            app: self.provers.max_app_provers,
                            leaf: self.provers.max_leaf_provers,
                            internal: self.provers.max_internal_provers,
                        },
                    );
                }
            },
        }
        Ok(())
    }

    /// The URL under which the worker is reached: the one configured, or one derived
    /// from the listen address, with the address that binds every interface replaced
    /// by the loopback address.
    pub fn effective_worker_url(&self) -> (r: String)
        ensures
            self.worker.worker_url matches Some(url) ==> r@ == url@,
            self.worker.worker_url is None ==> r@ == if binds_all(self.server.listen_addr@) {
                "http://127.0.0.1"@ + self.server.listen_addr@.skip(7)
            } else {
                "http://"@ + self.server.listen_addr@
            },
    {
        match &self.worker.worker_url {
            Some(url) => url.clone(),
            None => {
                let addr = self.server.listen_addr.as_str();
                proof {
                    reveal_strlit("0.0.0.0");
                    reveal_strlit("0.0.0.0:");
                }
                if let Some(port) = strip_prefix(addr, "0.0.0.0") {
                    if port.unicode_len() == 0 || starts_with(addr, "0.0.0.0:") {
                        assert(port@.len() == 0 ==> addr@ =~= addr@.take(7));
                        let mut out = "http://127.0.0.1".to_owned();
                        out.append(port);
                        return out;
                    }
                }
                proof {
                    if begins_with(addr@, "0.0.0.0:"@) {
                        assert(addr@.take(7) =~= addr@.take(8).take(7));
                        assert("0.0.0.0:"@.take(7) =~= "0.0.0.0"@);
                    }
                    assert(addr@ == "0.0.0.0"@ ==> addr@.take(7) =~= addr@);
                }
                let mut out = "http://".to_owned();
                out.append(addr);
                out
            },
        }
    }
}

/// A configuration that validates gives its role the capacity it needs, and a
/// dedicated EVM worker no other.
pub proof fn valid_config_has_capacity(config: WorkerConfig)
    requires
        config.rejection() is None,
    ensures
        config.worker.prover_id < config.worker.num_provers,
        config.worker.worker_role.proves_stark() ==> config.provers.max_app_provers > 0,
        config.worker.worker_role == WorkerRole::EvmDedicated ==> {
            &&& config.provers.max_root_provers > 0
            &&& config.provers.max_halo2_provers > 0
            &&& config.provers.max_app_provers == 0
            &&& config.provers.max_leaf_provers == 0
            &&& config.provers.max_internal_provers == 0
        },
{
}

/// A configuration is accepted exactly if the worker is one of the pool and its role has
/// its capacity: app provers, or for a dedicated EVM worker root and halo2 provers and no
/// others. It is handed on as it was read.
pub proof fn roles_have_their_capacity(
    config: WorkerConfig,
    r: Result<(), ConfigError>,
    loaded: Result<WorkerConfig, ConfigError>,
)
    requires
        call_ensures(WorkerConfig::validate, (&config,), r),
        call_ensures(WorkerConfig::load, (config,), loaded),
    ensures
        r is Ok <==> config.worker.prover_id < config.worker.num_provers && (
        if config.worker.worker_role is EvmDedicated {
            config.provers.max_root_provers > 0 && config.provers.max_halo2_provers > 0
                && config.provers.max_app_provers == 0 && config.provers.max_leaf_provers == 0
                && config.provers.max_internal_provers == 0
        } else {
            config.provers.max_app_provers > 0
        }),
        r is Ok <==> loaded is Ok,
        loaded is Ok ==> loaded->Ok_0 == config,
        r is Err ==> loaded->Err_0 == r->Err_0,
        r is Err && r->Err_0 is ProverIdOutOfRange <==> config.worker.prover_id
            >= config.worker.num_provers,
        r is Err && r->Err_0 is NoAppProvers ==> config.provers.max_app_provers == 0
            && !(config.worker.worker_role is EvmDedicated),
        r is Err && r->Err_0 is NoEvmCapacity ==> config.worker.worker_role is EvmDedicated && (
        config.provers.max_root_provers == 0 || config.provers.max_halo2_provers == 0),
        r is Err && r->Err_0 is StrayStarkCapacity ==> config.worker.worker_role is EvmDedicated
            && config.provers.max_root_provers > 0 && config.provers.max_halo2_provers > 0,
{
}

/// The URL that is configured is used as it is. Otherwise it is made from the listen
/// address: one that binds every interface gives the loopback address, with the port if
/// it has one, and any other is kept.
pub proof fn worker_urls_can_be_reached(config: &WorkerConfig, r: String, port: Seq<char>)
    requires
        call_ensures(WorkerConfig::effective_worker_url, (config,), r),
    ensures
        config.worker.worker_url is Some ==> r@ == config.worker.worker_url->0@,
        config.worker.worker_url is None && config.server.listen_addr@ == "0.0.0.0"@ ==> r@
            == "http://127.0.0.1"@,
        config.worker.worker_url is None && config.server.listen_addr@ == "0.0.0.0:"@ + port
            ==> r@ == "http://127.0.0.1:"@ + port,
        config.worker.worker_url is None && config.server.listen_addr@ != "0.0.0.0"@ && (
        forall|p: Seq<char>| config.server.listen_addr@ != #[trigger] ("0.0.0.0:"@ + p)) ==> r@
            == "http://"@ + config.server.listen_addr@,
{
    reveal_strlit("0.0.0.0");
    reveal_strlit("0.0.0.0:");
    reveal_strlit("http://127.0.0.1");
    reveal_strlit("http://127.0.0.1:");
    let addr = config.server.listen_addr@;
    if addr == "0.0.0.0"@ {
        assert("http://127.0.0.1"@ + addr.skip(7) =~= "http://127.0.0.1"@);
    }
    if addr == "0.0.0.0:"@ + port {
        assert(addr.take(8) =~= "0.0.0.0:"@);
        assert(begins_with(addr, "0.0.0.0:"@));
        assert("http://127.0.0.1"@ + addr.skip(7) =~= "http://127.0.0.1:"@ + port);
    }
    if begins_with(addr, "0.0.0.0:"@) {
        assert(addr =~= "0.0.0.0:"@ + addr.skip(8));
    }
}

/// What is said of a configuration that was refused holds the settings it was refused for.
pub proof fn refused_settings_are_told(e: ConfigError, r: String)
    requires
        call_ensures(ConfigError::message, (e,), r),
    ensures
        e matches ConfigError::ProverIdOutOfRange { prover_id, num_provers } ==> r@
            == "worker.prover_id ("@ + decimal(prover_id as nat)
            + ") must be < worker.num_provers ("@ + decimal(num_provers as nat) + ")"@,
        e is NoAppProvers ==> r@ == "provers.max_app_provers must be > 0"@,
        e matches ConfigError::NoEvmCapacity { root, halo2 } ==> r@
            == "EvmDedicated worker requires root + halo2 capacity: provers.max_root_provers ("@
            + decimal(root as nat) + ") and provers.max_halo2_provers ("@ + decimal(halo2 as nat)
            + ") must both be > 0"@,
        e matches ConfigError::StrayStarkCapacity { app, leaf, internal } ==> r@
            == "EvmDedicated worker must set app/leaf/internal capacity to 0 (got app="@
            + decimal(app as nat) + ", leaf="@ + decimal(leaf as nat) + ", internal="@ + decimal(
            internal as nat,
        ) + "); this role runs only root + halo2"@,
{
}

} // verus!
