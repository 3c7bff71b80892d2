//! Start-up of a worker: the decisions between its configuration and its first
//! request.

use vstd::prelude::*;
use vstd::string::*;

use crate::artifacts::ArtifactStatus;
use crate::config::WorkerConfig;
use crate::handlers::WorkerInfo;
use crate::program::{ParseProgramsError, ProgramRef};
use crate::requests::WorkerRole;
use crate::text::{decimal, push_usize};

verus! {

/// Seconds between two registrations with the manager.
pub const REGISTRATION_INTERVAL: u64 = 30;

/// The text of a loadout that cannot be read from the environment.
pub fn loadout_failure(e: &ParseProgramsError) -> (r: String)
    ensures
        r@ == "Failed to parse EDGE_PROGRAMS: "@ + e.text(),
{
    let mut out = "Failed to parse EDGE_PROGRAMS: ".to_owned();
    let text = e.message();
    out.append(text.as_str());
    out
}

/// Check that the manager agrees with the configured worker ID.
pub fn check_worker_id(returned: usize, configured: usize) -> (r: Result<(), String>)
    ensures
        returned == configured ==> r is Ok,
        returned != configured ==> r is Err && r->Err_0@ == "manager returned worker_id "@
            + decimal(returned as nat) + " but config prover_id is "@ + decimal(configured as nat),
{
    if returned == configured {
        return Ok(());
    }
    let mut out = "manager returned worker_id ".to_owned();
    push_usize(&mut out, returned);
    out.append(" but config prover_id is ");
    push_usize(&mut out, configured);
    Err(out)
}

/// Where the execution context of the app provers comes from.
#[derive(Debug, Clone, Copy, PartialEq, Eq, Structural)]
pub enum AppContextSource {
    /// It arrives with the first registered program.
    Registration,
    /// It is built at start-up, from the loadout.
    Loadout,
    /// The role of the worker needs none.
    NotNeeded,
}

/// Decide where the execution context of the app provers comes from. An empty loadout
/// has nothing to build it from; an EVM-only worker has no use for it.
pub fn app_context_source(num_programs: usize, role: WorkerRole) -> (r: AppContextSource)
    ensures
        r == if num_programs == 0 {
            AppContextSource::Registration
        } else if role.proves_stark() {
            AppContextSource::Loadout
        } else {
            AppContextSource::NotNeeded
        },
{
    if num_programs == 0 {
        AppContextSource::Registration
    } else if role.runs_stark_proving() {
        AppContextSource::Loadout
    } else {
        AppContextSource::NotNeeded
    }
}

/// What the handlers know of the configuration.
pub fn worker_info(config: &WorkerConfig) -> (r: WorkerInfo)
    ensures
        r.prover_id == config.worker.prover_id,
        r.num_provers == config.worker.num_provers,
        r.max_app_provers == config.provers.max_app_provers,
        r.default_segment_memory == config.provers.default_segment_memory,
        r.worker_role == config.worker.worker_role,
{
    WorkerInfo {
        prover_id: config.worker.prover_id,
        num_provers: config.worker.num_provers,
        max_app_provers: config.provers.max_app_provers,
        default_segment_memory: config.provers.default_segment_memory,
        worker_role: config.worker.worker_role,
    }
}

/// Check that the execution context can be built.
pub fn check_app_context(status: ArtifactStatus) -> (r: Result<(), String>)
    ensures
        match status {
            ArtifactStatus::NoStore => r is Err && r->Err_0@
                == "ArtifactStore not initialized before app worker context build"@,
            ArtifactStatus::NotLoaded => r is Err && r->Err_0@ == "Edge artifacts not loaded"@,
            ArtifactStatus::Loaded { .. } => r is Ok,
        },
{
    match status {
        ArtifactStatus::NoStore => Err(
            "ArtifactStore not initialized before app worker context build".to_owned(),
        ),
        ArtifactStatus::NotLoaded => Err("Edge artifacts not loaded".to_owned()),
        ArtifactStatus::Loaded { .. } => Ok(()),
    }
}

/// What building the instances of one program came to.
pub enum InstanceBuild<I> {
    Built(I),
    /// The store has no executable of the program.
    ProgramMissing,
    Failed(String),
}

/// The text of a failed build.
pub open spec fn build_failure<I>(program: ProgramRef, build: InstanceBuild<I>) -> Option<
    Seq<char>,
> {
    match build {
        InstanceBuild::Built(_) => None,
        InstanceBuild::ProgramMissing => Some(
            "vmexe for "@ + program.rendered() + " missing from artifact store"@,
        ),
        InstanceBuild::Failed(e) => Some(e@),
    }
}

/// Collect the instances that were built for the programs, in the order of the
/// programs. The first program whose build failed fails them all, however the builds
/// were ordered in time.
pub fn collect_instances<I>(programs: &Vec<ProgramRef>, builds: Vec<InstanceBuild<I>>) -> (r: Result<
    Vec<I>,
    String,
>)
    requires
        programs@.len() == builds@.len(),
    ensures
        r matches Ok(instances) ==> instances@.len() == builds@.len() && forall|i: int|
            0 <= i < builds@.len() ==> #[trigger] builds@[i] == InstanceBuild::Built(
                instances@[i],
            ),
        r matches Err(e) ==> exists|k: int|
            0 <= k < builds@.len() && build_failure(programs@[k], #[trigger] builds@[k]) == Some(
                e@,
            ) && forall|i: int| 0 <= i < k ==> #[trigger] builds@[i] is Built,
{
    let ghost all = builds@;
    let mut rest = builds;
    let mut out: Vec<I> = Vec::new();
    assert(all.skip(0) =~= all);
    while rest.len() > 0
        invariant
            all == builds@,
            programs@.len() == all.len(),
            out@.len() <= all.len(),
            rest@ == all.skip(out@.len() as int),
            forall|i: int|
                0 <= i < out@.len() ==> #[trigger] all[i] == InstanceBuild::Built(out@[i]),
        decreases rest@.len(),
    {
        let ghost k = out@.len() as int;
        let idx = out.len();
        let build = rest.remove(0);
        assert(build == all[k]);
        assert(rest@ =~= all.skip(k + 1));
        match build {
            InstanceBuild::Built(instance) => out.push(instance),
            InstanceBuild::ProgramMissing => {
                let mut text = "vmexe for ".to_owned();
                let shown = programs[idx].render();
                text.append(shown.as_str());
                text.append(" missing from artifact store");
                assert(build_failure(programs@[k], all[k]) == Some(text@));
                return Err(text);
            },
            InstanceBuild::Failed(e) => {
                assert(build_failure(programs@[k], all[k]) == Some(e@));
                return Err(e);
            },
        }
    }
    Ok(out)
}

/// The instances are there exactly if every build was successful, one for each program
/// and in their order.
pub proof fn one_failed_build_fails_them_all<I>(
    programs: &Vec<ProgramRef>,
    builds: Vec<InstanceBuild<I>>,
    r: Result<Vec<I>, String>,
)
    requires
        call_ensures(collect_instances::<I>, (programs, builds), r),
    ensures
        r is Ok <==> forall|i: int| 0 <= i < builds@.len() ==> #[trigger] builds@[i] is Built,
        r is Ok ==> r->Ok_0@.len() == builds@.len() && forall|i: int|
            0 <= i < builds@.len() ==> (#[trigger] builds@[i])->Built_0 == r->Ok_0@[i],
{
}

/// The text of a failure is that of the first build that failed.
pub proof fn the_first_failed_build_is_told<I>(
    programs: &Vec<ProgramRef>,
    builds: Vec<InstanceBuild<I>>,
    r: Result<Vec<I>, String>,
    k: int,
)
    requires
        call_ensures(collect_instances::<I>, (programs, builds), r),
        0 <= k < builds@.len(),
        forall|i: int| 0 <= i < k ==> #[trigger] builds@[i] is Built,
        !(builds@[k] is Built),
    ensures
        r is Err,
        builds@[k] is Failed ==> r->Err_0@ == builds@[k]->Failed_0@,
        builds@[k] is ProgramMissing ==> r->Err_0@ == "vmexe for "@ + programs@[k].rendered()
            + " missing from artifact store"@,
{
}

/// A worker goes on exactly if the manager knows it by the ID it is configured with.
pub proof fn worker_ids_must_agree(returned: usize, configured: usize, r: Result<(), String>)
    requires
        call_ensures(check_worker_id, (returned, configured), r),
    ensures
        r is Ok <==> returned == configured,
{
}

/// The execution context is built at start-up exactly if there are programs and the worker
/// proves app segments; without programs it is awaited, whatever the role. It needs the
/// keys to be loaded.
pub proof fn contexts_are_built_where_needed(
    num_programs: usize,
    role: WorkerRole,
    r: AppContextSource,
    status: ArtifactStatus,
    checked: Result<(), String>,
)
    requires
        call_ensures(app_context_source, (num_programs, role), r),
        call_ensures(check_app_context, (status,), checked),
    ensures
        r is Registration <==> num_programs == 0,
        r is Loadout <==> num_programs > 0 && !(role is EvmDedicated),
        r is NotNeeded <==> num_programs > 0 && role is EvmDedicated,
        checked is Ok <==> status is Loaded,
{
}

} // verus!
