use ecs_run::logs::log_query;
use ecs_run::logs::log_stream_name;
use ecs_run::logs::short_task_id;
use ecs_run::model::ContainerDefinition;
use ecs_run::model::LogConfiguration;
use ecs_run::model::LogOptions;

#[test]
fn stream_name_is_prefix_container_short_id() {
    assert_eq!(log_stream_name("app", "web", "abc123"), String::from("app/web/abc123"));
}

#[test]
fn short_id_is_the_trailing_path_segment() {
    assert_eq!(
        short_task_id("arn:aws:ecs:eu-west-1:123:task/prod/abc123"),
        String::from("abc123")
    );
}

#[test]
fn short_id_without_separator_is_the_whole_id() {
    assert_eq!(short_task_id("abc123"), String::from("abc123"));
}

fn full_options() -> LogOptions {
    LogOptions {
        group: Some(String::from("my-group")),
        region: Some(String::from("us-east-1")),
        stream_prefix: Some(String::from("app")),
    }
}

fn container_with(options: Option<LogOptions>) -> ContainerDefinition {
    ContainerDefinition {
        name: Some(String::from("web")),
        log_configuration: Some(LogConfiguration { options }),
    }
}

#[test]
fn log_query_uses_the_configured_names() {
    let q = log_query(container_with(Some(full_options())), "abc123").unwrap();
    assert_eq!(q.group, String::from("my-group"));
    assert_eq!(q.region, String::from("us-east-1"));
    assert_eq!(q.stream_name, String::from("app/web/abc123"));
}

#[test]
fn log_query_without_configuration_is_skipped() {
    let container = ContainerDefinition { name: Some(String::from("web")), log_configuration: None };
    assert!(log_query(container, "abc123").is_none());
}

#[test]
fn log_query_without_options_is_skipped() {
    assert!(log_query(container_with(None), "abc123").is_none());
}

#[test]
fn log_query_with_a_missing_option_is_skipped() {
    let mut options = full_options();
    options.group = None;
    assert!(log_query(container_with(Some(options)), "abc123").is_none());
    let mut options = full_options();
    options.region = None;
    assert!(log_query(container_with(Some(options)), "abc123").is_none());
    let mut options = full_options();
    options.stream_prefix = None;
    assert!(log_query(container_with(Some(options)), "abc123").is_none());
}
