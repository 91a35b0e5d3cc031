use ecs_run::env::parse_env;
use ecs_run::env::split_env_entry;
use ecs_run::model::KeyValuePair;

#[test]
fn test_parse_env() {
    let values = Some(vec![String::from("FOO=bar")]);
    assert_eq!(
        parse_env(&values),
        Some(vec![KeyValuePair {
            name: Some(String::from("FOO")),
            value: Some(String::from("bar")),
        }])
    )
}

#[test]
fn parse_env_splits_on_first_equals_only() {
    let kv = split_env_entry("FOO=a=b");
    assert_eq!(kv.name, Some(String::from("FOO")));
    assert_eq!(kv.value, Some(String::from("a=b")));
}

#[test]
fn parse_env_without_equals_has_no_value() {
    let kv = split_env_entry("FOO");
    assert_eq!(kv.name, Some(String::from("FOO")));
    assert_eq!(kv.value, None);
}

#[test]
fn parse_env_leading_equals_gives_empty_name() {
    let kv = split_env_entry("=bar");
    assert_eq!(kv.name, Some(String::from("")));
    assert_eq!(kv.value, Some(String::from("bar")));
}

#[test]
fn parse_env_trailing_equals_gives_empty_value() {
    let kv = split_env_entry("FOO=");
    assert_eq!(kv.name, Some(String::from("FOO")));
    assert_eq!(kv.value, Some(String::from("")));
}

#[test]
fn parse_env_absent_list_stays_absent() {
    assert_eq!(parse_env(&None), None);
}

#[test]
fn parse_env_keeps_order_and_duplicates() {
    let values = Some(vec![
        String::from("A=1"),
        String::from("B=2"),
        String::from("A=3"),
    ]);
    let pairs = parse_env(&values).unwrap();
    assert_eq!(pairs.len(), 3);
    assert_eq!(pairs[0].name, Some(String::from("A")));
    assert_eq!(pairs[0].value, Some(String::from("1")));
    assert_eq!(pairs[1].name, Some(String::from("B")));
    assert_eq!(pairs[1].value, Some(String::from("2")));
    assert_eq!(pairs[2].name, Some(String::from("A")));
    assert_eq!(pairs[2].value, Some(String::from("3")));
}
