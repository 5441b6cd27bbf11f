use rkctl::command::{Action, RawCommand, Resource};

const USAGE: &str = "usage: rkctl <get|delete> <pod|pods|service|svc> <name-or-pattern> [-n|--namespace <namespace>]";

#[test]
fn parse_get_pod_defaults() {
    let args = vec!["get".to_string(), "pod".to_string(), "web-.*".to_string()];
    let c = RawCommand::new(&args).unwrap();
    assert_eq!(c.namespace, "default");
    assert_eq!(c.action.verb_token(), "get");
    assert!(matches!(c.action, Action::Get(_)));
    assert!(matches!(c.action.unwrap(), Resource::Pod(_)));
    assert_eq!(c.action.unwrap().kind_token(), "pod");
    assert_eq!(c.action.unwrap().unwrap().resource_name, "web-.*");
}

#[test]
fn parse_delete_svc_alias() {
    let args = vec!["delete".to_string(), "svc".to_string(), "db".to_string()];
    let c = RawCommand::new(&args).unwrap();
    assert!(matches!(c.action, Action::Delete(_)));
    assert_eq!(c.action.verb_token(), "delete");
    assert!(matches!(c.action.unwrap(), Resource::Svc(_)));
    assert_eq!(c.action.unwrap().kind_token(), "svc");
}

#[test]
fn parse_service_and_pods_aliases() {
    let args = vec!["get".to_string(), "service".to_string(), "x".to_string()];
    let c = RawCommand::new(&args).unwrap();
    assert!(matches!(c.action.unwrap(), Resource::Service(_)));
    assert_eq!(c.action.unwrap().kind_token(), "svc");

    let args = vec!["get".to_string(), "pods".to_string(), "x".to_string()];
    let c = RawCommand::new(&args).unwrap();
    assert!(matches!(c.action.unwrap(), Resource::Pods(_)));
    assert_eq!(c.action.unwrap().kind_token(), "pod");
}

#[test]
fn parse_namespace_short_flag() {
    let args = vec![
        "get".to_string(),
        "pod".to_string(),
        "a".to_string(),
        "-n".to_string(),
        "prod".to_string(),
    ];
    let c = RawCommand::new(&args).unwrap();
    assert_eq!(c.namespace, "prod");

    let args = vec![
        "-n".to_string(),
        "prod".to_string(),
        "get".to_string(),
        "pod".to_string(),
        "a".to_string(),
    ];
    let c = RawCommand::new(&args).unwrap();
    assert_eq!(c.namespace, "prod");
    assert_eq!(c.action.verb_token(), "get");
}

#[test]
fn parse_namespace_long_flag() {
    let args = vec![
        "--namespace".to_string(),
        "kube-system".to_string(),
        "delete".to_string(),
        "pod".to_string(),
        "a".to_string(),
    ];
    let c = RawCommand::new(&args).unwrap();
    assert_eq!(c.namespace, "kube-system");
    assert!(matches!(c.action, Action::Delete(_)));
}

#[test]
fn parse_rejects_missing_positionals() {
    let args = vec!["get".to_string(), "pod".to_string()];
    assert_eq!(RawCommand::new(&args).unwrap_err(), USAGE);
    let args: Vec<String> = vec![];
    assert_eq!(RawCommand::new(&args).unwrap_err(), USAGE);
    let args = vec![
        "get".to_string(),
        "pod".to_string(),
        "a".to_string(),
        "b".to_string(),
    ];
    assert_eq!(RawCommand::new(&args).unwrap_err(), USAGE);
}

#[test]
fn parse_rejects_bad_verb_or_kind() {
    let args = vec!["frob".to_string(), "pod".to_string(), "a".to_string()];
    assert_eq!(RawCommand::new(&args).unwrap_err(), USAGE);
    let args = vec!["get".to_string(), "widget".to_string(), "a".to_string()];
    assert_eq!(RawCommand::new(&args).unwrap_err(), USAGE);
}

#[test]
fn parse_rejects_malformed_namespace_flag() {
    let args = vec![
        "get".to_string(),
        "pod".to_string(),
        "a".to_string(),
        "-n".to_string(),
    ];
    assert_eq!(RawCommand::new(&args).unwrap_err(), USAGE);
    let args = vec![
        "-n".to_string(),
        "x".to_string(),
        "get".to_string(),
        "pod".to_string(),
        "a".to_string(),
        "--namespace".to_string(),
        "y".to_string(),
    ];
    assert_eq!(RawCommand::new(&args).unwrap_err(), USAGE);
}
