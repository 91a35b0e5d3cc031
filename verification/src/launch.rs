//! The task launcher: builds the run request that clones the service's
//! scheduling parameters and overrides command, environment and memory for
//! the selected container, and decides what the backend's answer to it means.

use vstd::prelude::*;
use crate::digits::dec_int;
use crate::digits::dec_string_i64;
use crate::model::ContainerOverride;
use crate::model::KeyValuePair;
use crate::model::RunError;
use crate::model::RunTaskRequest;
use crate::model::Service;
use crate::model::Task;
use crate::model::TaskOverride;

verus! {

/// The fixed "started-by" marker every request carries, identifying this
/// tool as the originator.
pub open spec fn started_by_marker() -> Seq<char> {
    "ecs-run"@
}

/// Builds the run request for one task. The service's launch type, network
/// configuration, placement constraints and strategy, and platform version
/// are copied verbatim; exactly one task is requested; the one container
/// override replaces the command and environment of the selected container.
/// A memory override `m` sets the task-level memory to `m` in decimal and
/// the container-level memory to `m - 512`, reserving headroom for other
/// containers of the task; without one, neither is set.
pub fn build_run_request(
    cluster: &str,
    service: Service,
    command: Vec<String>,
    env: Option<Vec<KeyValuePair>>,
    container_name: Option<String>,
    memory: Option<i64>,
) -> (r: RunTaskRequest)
    requires
        service.task_definition is Some,
        memory matches Some(m) ==> m - 512 >= i64::MIN,
    ensures
        r.cluster matches Some(c) && c@ == cluster@,
        r.count == Some(1i64),
        r.launch_type == service.launch_type,
        r.network_configuration == service.network_configuration,
        r.placement_constraints == service.placement_constraints,
        r.placement_strategy == service.placement_strategy,
        r.platform_version == service.platform_version,
        r.task_definition == service.task_definition->0,
        r.started_by matches Some(s) && s@ == started_by_marker(),
        r.overrides matches Some(o) && {
            &&& o.container_overrides matches Some(cos)
            &&& cos.len() == 1
            &&& cos[0].name == container_name
            &&& cos[0].command == Some(command)
            &&& cos[0].environment == env
            &&& match memory {
                Some(m) => cos[0].memory == Some((m - 512) as i64),
                None => cos[0].memory is None,
            }
            &&& match memory {
                Some(m) => o.memory matches Some(t) && t@ == dec_int(m as int),
                None => o.memory is None,
            }
        },
{
    let task_memory: Option<String>;
    let container_memory: Option<i64>;
    match memory {
        Some(m) => {
            task_memory = Some(dec_string_i64(m));
            container_memory = Some(m - 512);
        },
        None => {
            task_memory = None;
            container_memory = None;
        },
    }
    let mut container_overrides: Vec<ContainerOverride> = Vec::new();
    container_overrides.push(
        ContainerOverride {
            name: container_name,
            command: Some(command),
            environment: env,
            memory: container_memory,
        },
    );
    RunTaskRequest {
        cluster: Some(cluster.to_owned()),
        count: Some(1),
        launch_type: service.launch_type,
        network_configuration: service.network_configuration,
        overrides: Some(
            TaskOverride { container_overrides: Some(container_overrides), memory: task_memory },
        ),
        placement_constraints: service.placement_constraints,
        placement_strategy: service.placement_strategy,
        platform_version: service.platform_version,
        started_by: Some("ecs-run".to_owned()),
        task_definition: service.task_definition.unwrap(),
    }
}

/// Decides what a "run task" answer means: the single launched task on
/// success, `LaunchFailed` when the backend started no task (fatal, never
/// retried, since retrying could start a duplicate), and `BackendError` when
/// the call itself failed.
pub fn first_launched_task(response: Result<Option<Vec<Task>>, String>) -> (r: Result<
    Task,
    RunError,
>)
    ensures
        match response {
            Err(e) => r matches Err(RunError::BackendError(m)) && m@ == e@,
            Ok(None) => r matches Err(RunError::LaunchFailed),
            Ok(Some(ts)) => if ts.len() == 0 {
                r matches Err(RunError::LaunchFailed)
            } else {
                r matches Ok(t) && t == ts[0]
            },
        },
{
    match response {
        Err(e) => Err(RunError::BackendError(e)),
        Ok(None) => Err(RunError::LaunchFailed),
        Ok(Some(mut ts)) => {
            if ts.len() == 0 {
                Err(RunError::LaunchFailed)
            } else {
                Ok(ts.remove(0))
            }
        },
    }
}

} // verus!
