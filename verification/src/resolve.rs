//! Interpreting the answers of the orchestration backend's one-shot lookups:
//! the described service and the described task definition. The caller makes
//! the remote call and hands the outcome in as plain values; the functions
//! here decide what it means for the run.

use vstd::prelude::*;
use crate::model::RunError;
use crate::model::Service;
use crate::model::TaskDefinition;

verus! {

/// Decides what a "describe services" answer means: the first returned
/// service on success, `NotFound` when the backend returned an empty or
/// absent collection, and `BackendError` when the call itself failed.
pub fn resolve_service(service_name: &str, response: Result<Option<Vec<Service>>, String>) -> (r:
    Result<Service, RunError>)
    ensures
        match response {
            Err(e) => r matches Err(RunError::BackendError(m)) && m@ == e@,
            Ok(None) => r matches Err(RunError::NotFound(m)) && m@ == "service "@ + service_name@,
            Ok(Some(ss)) => if ss.len() == 0 {
                r matches Err(RunError::NotFound(m)) && m@ == "service "@ + service_name@
            } else {
                r matches Ok(s) && s == ss[0]
            },
        },
{
    match response {
        Err(e) => Err(RunError::BackendError(e)),
        Ok(None) => Err(RunError::NotFound(service_message(service_name))),
        Ok(Some(mut ss)) => {
            if ss.len() == 0 {
                Err(RunError::NotFound(service_message(service_name)))
            } else {
                Ok(ss.remove(0))
            }
        },
    }
}

/// The description carried by a service `NotFound` error.
fn service_message(service_name: &str) -> (r: String)
    ensures
        r@ == "service "@ + service_name@,
{
    let mut m = "service ".to_owned();
    m.append(service_name);
    m
}

/// Reads the task definition reference out of a resolved service. Absence is
/// a fatal misconfiguration, not a recoverable error.
pub fn task_definition_ref(service: &Service) -> (r: Result<String, RunError>)
    ensures
        match service.task_definition {
            Some(td) => r matches Ok(t) && t == td,
            None => r matches Err(RunError::ConfigurationError(m)) && m@
                == "service has no task definition"@,
        },
{
    match &service.task_definition {
        Some(td) => Ok(td.clone()),
        None => Err(RunError::ConfigurationError("service has no task definition".to_owned())),
    }
}

/// Decides what a "describe task definition" answer means: the full task
/// definition on success; an answer without one is a protocol failure.
pub fn resolve_task_definition(response: Result<Option<TaskDefinition>, String>) -> (r: Result<
    TaskDefinition,
    RunError,
>)
    ensures
        match response {
            Err(e) => r matches Err(RunError::BackendError(m)) && m@ == e@,
            Ok(None) => r matches Err(RunError::BackendError(m)) && m@
                == "response held no task definition"@,
            Ok(Some(td)) => r matches Ok(t) && t == td,
        },
{
    match response {
        Err(e) => Err(RunError::BackendError(e)),
        Ok(None) => Err(RunError::BackendError("response held no task definition".to_owned())),
        Ok(Some(td)) => Ok(td),
    }
}

} // verus!
