use ecs_run::launch::build_run_request;
use ecs_run::launch::first_launched_task;
use ecs_run::model::AwsVpcConfiguration;
use ecs_run::model::KeyValuePair;
use ecs_run::model::NetworkConfiguration;
use ecs_run::model::PlacementConstraint;
use ecs_run::model::RunError;
use ecs_run::model::Service;
use ecs_run::model::Task;

fn sample_service() -> Service {
    Service {
        launch_type: Some(String::from("FARGATE")),
        network_configuration: Some(NetworkConfiguration {
            awsvpc_configuration: Some(AwsVpcConfiguration {
                assign_public_ip: Some(String::from("DISABLED")),
                security_groups: Some(vec![String::from("sg-1")]),
                subnets: vec![String::from("subnet-1"), String::from("subnet-2")],
            }),
        }),
        placement_constraints: Some(vec![PlacementConstraint {
            expression: Some(String::from("attribute:ecs.instance-type =~ t2.*")),
            kind: Some(String::from("memberOf")),
        }]),
        placement_strategy: None,
        platform_version: Some(String::from("1.4.0")),
        task_definition: Some(String::from("arn:aws:ecs:eu-west-1:123:task-definition/app:7")),
    }
}

#[test]
fn memory_override_sets_task_and_container_memory() {
    let request = build_run_request(
        "prod",
        sample_service(),
        vec![String::from("echo")],
        None,
        Some(String::from("web")),
        Some(2048),
    );
    let overrides = request.overrides.unwrap();
    assert_eq!(overrides.memory, Some(String::from("2048")));
    let cos = overrides.container_overrides.unwrap();
    assert_eq!(cos.len(), 1);
    assert_eq!(cos[0].memory, Some(1536));
}

#[test]
fn no_memory_override_leaves_both_absent() {
    let request = build_run_request(
        "prod",
        sample_service(),
        vec![String::from("echo")],
        None,
        Some(String::from("web")),
        None,
    );
    let overrides = request.overrides.unwrap();
    assert_eq!(overrides.memory, None);
    let cos = overrides.container_overrides.unwrap();
    assert_eq!(cos[0].memory, None);
}

#[test]
fn request_clones_scheduling_parameters_verbatim() {
    let service = sample_service();
    let request = build_run_request(
        "prod",
        service.clone(),
        vec![String::from("rake"), String::from("db:migrate")],
        Some(vec![KeyValuePair {
            name: Some(String::from("RAILS_ENV")),
            value: Some(String::from("production")),
        }]),
        Some(String::from("web")),
        None,
    );
    assert_eq!(request.cluster, Some(String::from("prod")));
    assert_eq!(request.count, Some(1));
    assert_eq!(request.launch_type, service.launch_type);
    assert_eq!(request.network_configuration, service.network_configuration);
    assert_eq!(request.placement_constraints, service.placement_constraints);
    assert_eq!(request.placement_strategy, service.placement_strategy);
    assert_eq!(request.platform_version, service.platform_version);
    assert_eq!(request.task_definition, service.task_definition.unwrap());
    assert_eq!(request.started_by, Some(String::from("ecs-run")));
    let cos = request.overrides.unwrap().container_overrides.unwrap();
    assert_eq!(cos[0].name, Some(String::from("web")));
    assert_eq!(
        cos[0].command,
        Some(vec![String::from("rake"), String::from("db:migrate")])
    );
    assert_eq!(
        cos[0].environment,
        Some(vec![KeyValuePair {
            name: Some(String::from("RAILS_ENV")),
            value: Some(String::from("production")),
        }])
    );
}

fn sample_task() -> Task {
    Task {
        task_arn: Some(String::from("arn:aws:ecs:eu-west-1:123:task/prod/abc123")),
        last_status: Some(String::from("PROVISIONING")),
        stopped_at: None,
        containers: None,
    }
}

#[test]
fn launch_returns_the_single_started_task() {
    let r = first_launched_task(Ok(Some(vec![sample_task()])));
    assert_eq!(r, Ok(sample_task()));
}

#[test]
fn launch_with_zero_tasks_fails() {
    assert_eq!(first_launched_task(Ok(Some(vec![]))), Err(RunError::LaunchFailed));
    assert_eq!(first_launched_task(Ok(None)), Err(RunError::LaunchFailed));
}

#[test]
fn launch_backend_error_is_wrapped() {
    let r = first_launched_task(Err(String::from("throttled")));
    assert_eq!(r, Err(RunError::BackendError(String::from("throttled"))));
}
