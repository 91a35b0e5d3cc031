//! Plain-value snapshots of the remote entities the pipeline works on.
//!
//! Every field the logic reads is held here as a plain value, so that the
//! contracts can speak about it directly. The surrounding binary converts
//! between these types and the backend client's own types.

use vstd::prelude::*;

verus! {

/// One environment entry handed to the backend: a name with an optional value.
#[derive(Debug, Clone, PartialEq, Eq)]
pub struct KeyValuePair {
    pub name: Option<String>,
    pub value: Option<String>,
}

/// VPC networking parameters of a service, copied verbatim into a run request.
#[derive(Debug, Clone, PartialEq, Eq)]
pub struct AwsVpcConfiguration {
    pub assign_public_ip: Option<String>,
    pub security_groups: Option<Vec<String>>,
    pub subnets: Vec<String>,
}

/// Network configuration of a service, copied verbatim into a run request.
#[derive(Debug, Clone, PartialEq, Eq)]
pub struct NetworkConfiguration {
    pub awsvpc_configuration: Option<AwsVpcConfiguration>,
}

/// One placement constraint of a service, copied verbatim into a run request.
#[derive(Debug, Clone, PartialEq, Eq)]
pub struct PlacementConstraint {
    pub expression: Option<String>,
    pub kind: Option<String>,
}

/// One placement strategy rule of a service, copied verbatim into a run request.
#[derive(Debug, Clone, PartialEq, Eq)]
pub struct PlacementStrategy {
    pub field: Option<String>,
    pub kind: Option<String>,
}

/// A deployed service: the scheduling parameters a run clones, and the
/// reference to the task definition it instantiates.
#[derive(Debug, Clone, PartialEq, Eq)]
pub struct Service {
    pub launch_type: Option<String>,
    pub network_configuration: Option<NetworkConfiguration>,
    pub placement_constraints: Option<Vec<PlacementConstraint>>,
    pub placement_strategy: Option<Vec<PlacementStrategy>>,
    pub platform_version: Option<String>,
    pub task_definition: Option<String>,
}

/// The three log-driver options the log fetcher reads. Each may be absent.
#[derive(Debug, Clone, PartialEq, Eq)]
pub struct LogOptions {
    pub group: Option<String>,
    pub region: Option<String>,
    pub stream_prefix: Option<String>,
}

/// Log configuration of a container definition.
#[derive(Debug, Clone, PartialEq, Eq)]
pub struct LogConfiguration {
    pub options: Option<LogOptions>,
}

/// One container within a task definition.
#[derive(Debug, Clone, PartialEq, Eq)]
pub struct ContainerDefinition {
    pub name: Option<String>,
    pub log_configuration: Option<LogConfiguration>,
}

/// A task definition: an ordered collection of container definitions.
#[derive(Debug, Clone, PartialEq, Eq)]
pub struct TaskDefinition {
    pub container_definitions: Vec<ContainerDefinition>,
}

/// The per-container result carried by a task snapshot.
#[derive(Debug, Clone, PartialEq, Eq)]
pub struct ContainerResult {
    pub exit_code: Option<i64>,
}

/// A snapshot of a launched task. `stopped_at` is a timestamp in
/// milliseconds; the pipeline only ever tests its presence, which marks the
/// terminal state.
#[derive(Debug, Clone, PartialEq, Eq)]
pub struct Task {
    pub task_arn: Option<String>,
    pub last_status: Option<String>,
    pub stopped_at: Option<i64>,
    pub containers: Option<Vec<ContainerResult>>,
}

/// Per-container overrides installed by a run request.
#[derive(Debug, Clone, PartialEq, Eq)]
pub struct ContainerOverride {
    pub name: Option<String>,
    pub command: Option<Vec<String>>,
    pub environment: Option<Vec<KeyValuePair>>,
    pub memory: Option<i64>,
}

/// Task-level overrides of a run request: the container overrides plus an
/// optional task-level memory limit, rendered in decimal.
#[derive(Debug, Clone, PartialEq, Eq)]
pub struct TaskOverride {
    pub container_overrides: Option<Vec<ContainerOverride>>,
    pub memory: Option<String>,
}

/// A fully built run request, ready to be submitted by the caller.
#[derive(Debug, Clone, PartialEq, Eq)]
pub struct RunTaskRequest {
    pub cluster: Option<String>,
    pub count: Option<i64>,
    pub launch_type: Option<String>,
    pub network_configuration: Option<NetworkConfiguration>,
    pub overrides: Option<TaskOverride>,
    pub placement_constraints: Option<Vec<PlacementConstraint>>,
    pub placement_strategy: Option<Vec<PlacementStrategy>>,
    pub platform_version: Option<String>,
    pub started_by: Option<String>,
    pub task_definition: String,
}

/// Why a run aborted. Every error is terminal for the run; the only retried
/// condition (task not yet visible to a status query) is not an error.
#[derive(Debug, Clone, PartialEq, Eq)]
pub enum RunError {
    /// The named service or container does not exist; carries a description
    /// of what was looked for.
    NotFound(String),
    /// No container name was requested and the task definition does not hold
    /// exactly one container.
    AmbiguousContainer,
    /// The resolved service carries no task definition reference.
    ConfigurationError(String),
    /// The run request was accepted but the backend started no task.
    LaunchFailed,
    /// A transport, auth or protocol failure from either remote backend;
    /// carries the underlying description.
    BackendError(String),
}

} // verus!
