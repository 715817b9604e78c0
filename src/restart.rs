//! The restart orchestrator's decisions: which container a restart request
//! maps to, and the result reported for each outcome of the runtime command.

use vstd::prelude::*;
use crate::metrics::{Metrics, Tally, increment_service_restart, next_count};
use crate::models::{RestartResult, ServiceConfig};
use crate::text::{concat, owned};

verus! {

pub const NOT_FOUND_MESSAGE: &'static str = "Service not found";

pub const NO_CONTAINER_MESSAGE: &'static str = "No Docker container configured for this service";

/// Whether `i` is the first configured service with this id.
pub open spec fn first_with_id(configs: Seq<ServiceConfig>, id: Seq<char>, i: int) -> bool {
    &&& 0 <= i < configs.len()
    &&& configs[i].id@ == id
    &&& forall|j: int| 0 <= j < i ==> (#[trigger] configs[j]).id@ != id
}

pub open spec fn unknown_id(configs: Seq<ServiceConfig>, id: Seq<char>) -> bool {
    forall|j: int| 0 <= j < configs.len() ==> (#[trigger] configs[j]).id@ != id
}

/// No two configured services share an id.
pub open spec fn ids_distinct(configs: Seq<ServiceConfig>) -> bool {
    forall|i: int, j: int|
        0 <= i < j < configs.len() ==> (#[trigger] configs[i]).id@ != (#[trigger] configs[j]).id@
}

/// With distinct ids, the service carrying an id is the one that restart
/// requests for that id map to.
pub proof fn unique_id_is_first(configs: Seq<ServiceConfig>, id: Seq<char>, i: int)
    requires
        ids_distinct(configs),
        0 <= i < configs.len(),
        configs[i].id@ == id,
    ensures
        first_with_id(configs, id, i),
{
    assert forall|j: int| 0 <= j < i implies (#[trigger] configs[j]).id@ != id by {
        assert(configs[j].id@ != configs[i].id@);
    }
}

/// Index of the first configured service with this id.
pub fn find_service(configs: &Vec<ServiceConfig>, id: &String) -> (r: Option<usize>)
    ensures
        r matches Some(i) ==> first_with_id(configs@, id@, i as int),
        r is None ==> unknown_id(configs@, id@),
{
    let mut i: usize = 0;
    while i < configs.len()
        invariant
            i <= configs@.len(),
            forall|j: int| 0 <= j < i ==> (#[trigger] configs@[j]).id@ != id@,
        decreases configs@.len() - i,
    {
        if configs[i].id.eq(id) {
            return Some(i);
        }
        i = i + 1;
    }
    None
}

/// What a restart request leads to.
#[derive(Debug)]
pub enum RestartPlan {
    /// Restart this container through the runtime.
    Run { container: String, service_name: String },
    /// Nothing to run: this is the result.
    Done(RestartResult),
}

pub open spec fn failed_with(r: RestartResult, id: Seq<char>, message: Seq<char>, now: i64) -> bool {
    &&& r.service_id@ == id
    &&& !r.success
    &&& r.message@ == message
    &&& r.timestamp == now
}

/// Maps a restart request to the service's container. An unknown service, or
/// one without a container, yields a failed result and no runtime call.
pub fn plan_restart(configs: &Vec<ServiceConfig>, service_id: &String, now: i64) -> (r: RestartPlan)
    ensures
        unknown_id(configs@, service_id@) ==> (r matches RestartPlan::Done(res) && failed_with(
            res,
            service_id@,
            NOT_FOUND_MESSAGE@,
            now,
        )),
        forall|i: int|
            first_with_id(configs@, service_id@, i) ==> match configs@[i].docker_container {
                None => r matches RestartPlan::Done(res) && failed_with(
                    res,
                    service_id@,
                    NO_CONTAINER_MESSAGE@,
                    now,
                ),
                Some(c) => r == RestartPlan::Run { container: c, service_name: configs@[i].name },
            },
{
    match find_service(configs, service_id) {
        None => RestartPlan::Done(
            RestartResult {
                service_id: service_id.clone(),
                success: false,
                message: owned(NOT_FOUND_MESSAGE),
                timestamp: now,
            },
        ),
        Some(i) => {
            let config = &configs[i];
            proof {
                assert forall|k: int| first_with_id(configs@, service_id@, k) implies k == i by {
                    if k < i {
                        assert(configs@[k].id@ != service_id@);
                    }
                    if k > i {
                        assert(configs@[i as int].id@ != service_id@);
                    }
                }
            }
            match &config.docker_container {
                None => RestartPlan::Done(
                    RestartResult {
                        service_id: service_id.clone(),
                        success: false,
                        message: owned(NO_CONTAINER_MESSAGE),
                        timestamp: now,
                    },
                ),
                Some(c) => RestartPlan::Run { container: c.clone(), service_name: config.name.clone() },
            }
        },
    }
}

/// How the runtime's restart command ended.
#[derive(Debug)]
pub enum RestartOutcome {
    /// The command ran; `success` is its exit status, `stderr` its error output.
    Exited { success: bool, stderr: String },
    /// The command could not be started.
    SpawnFailed { error: String },
}

pub open spec fn outcome_message(container: Seq<char>, outcome: RestartOutcome) -> Seq<char> {
    match outcome {
        RestartOutcome::Exited { success, stderr } => if success {
            "Successfully restarted container "@ + container
        } else {
            "Failed to restart container: "@ + stderr@
        },
        RestartOutcome::SpawnFailed { error } => "Error executing restart command: "@ + error@,
    }
}

/// The result of a restart that reached the runtime. A command that ran is
/// counted in the sink with its outcome.
pub fn finish_restart(
    metrics: &mut Metrics,
    service_id: &String,
    service_name: &String,
    container: &String,
    outcome: RestartOutcome,
    now: i64,
) -> (r: RestartResult)
    ensures
        r.service_id == *service_id,
        r.success == (outcome matches RestartOutcome::Exited { success, .. } && success),
        r.message@ == outcome_message(container@, outcome),
        r.timestamp == now,
        outcome is Exited ==> final(metrics).counts() == (Tally {
            service_restarts: next_count(old(metrics).counts().service_restarts),
            ..old(metrics).counts()
        }),
        outcome is SpawnFailed ==> final(metrics).counts() == old(metrics).counts(),
{
    match outcome {
        RestartOutcome::Exited { success, stderr } => {
            increment_service_restart(metrics, service_id.as_str(), service_name.as_str(), success);
            let message = if success {
                concat("Successfully restarted container ", container.as_str())
            } else {
                concat("Failed to restart container: ", stderr.as_str())
            };
            RestartResult { service_id: service_id.clone(), success, message, timestamp: now }
        },
        RestartOutcome::SpawnFailed { error } => {
            let message = concat("Error executing restart command: ", error.as_str());
            RestartResult { service_id: service_id.clone(), success: false, message, timestamp: now }
        },
    }
}

} // verus!
