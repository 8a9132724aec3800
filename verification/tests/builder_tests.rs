use cloud_collector::collector_builder::{
    CollectionMode, CollectorBuilder, ConfigError, DetailTemplate, RegionMode,
};
use cloud_collector::collector_builder::resolve_region;
use cloud_collector::parallel::{build_detail_config, with_region, DetailConfig};

#[test]
fn test_resolve_region() {
    assert_eq!(resolve_region(&RegionMode::Regional, "eu-west-1"), "eu-west-1");
    assert_eq!(resolve_region(&RegionMode::Global, "eu-west-1"), "global");
    assert_eq!(
        resolve_region(&RegionMode::Custom("us-east-1".to_string()), "eu-west-1"),
        "us-east-1"
    );
}

#[test]
fn test_detail_template_new() {
    let t = DetailTemplate::new("Tags", "sns", "list-tags-for-resource", "--resource-arn");
    assert_eq!(t.field_name, "Tags");
    assert_eq!(t.service, "sns");
    assert_eq!(t.operation, "list-tags-for-resource");
    assert_eq!(t.param_name, "--resource-arn");
}

#[test]
fn test_builder_accumulates_configs() {
    let b = CollectorBuilder::new("svc", RegionMode::Regional)
        .add_simple_list("things", vec!["svc", "list-things"])
        .add_batch_commands(vec![
            ("a", vec!["svc", "list-a"]),
            ("b", vec!["svc", "list-b"]),
        ]);
    assert_eq!(b.service().as_str(), "svc");
    let resources = b.resources();
    assert_eq!(resources.len(), 2);
    assert_eq!(resources[0].resource_type, "things");
    match &resources[0].mode {
        CollectionMode::SimpleList { command } => {
            assert_eq!(command, &vec!["svc".to_string(), "list-things".to_string()]);
        },
        other => panic!("expected a simple list, got {:?}", other),
    }
    assert_eq!(resources[1].resource_type, "batch");
    match &resources[1].mode {
        CollectionMode::BatchCommands { commands } => {
            assert_eq!(commands.len(), 2);
            assert_eq!(commands[0].0, "a");
            assert_eq!(commands[1].1, vec!["svc".to_string(), "list-b".to_string()]);
        },
        other => panic!("expected batch commands, got {:?}", other),
    }
}

#[test]
fn test_zero_enrich_concurrency_rejected() {
    let built = CollectorBuilder::new("svc", RegionMode::Regional).add_detailed_resource(
        "things",
        vec!["svc", "list-things"],
        "items",
        "id",
        0,
        vec![],
    );
    assert_eq!(built.err(), Some(ConfigError::ZeroEnrichConcurrency));
}

#[test]
fn test_detailed_resource_accepted() {
    let b = CollectorBuilder::new("svc", RegionMode::Regional)
        .add_detailed_resource(
            "things",
            vec!["svc", "list-things"],
            "items",
            "id",
            4,
            vec![DetailTemplate::new("D", "svc", "get-d", "--id")],
        )
        .unwrap();
    let resources = b.resources();
    assert_eq!(resources.len(), 1);
    match &resources[0].mode {
        CollectionMode::ListWithDetails { array_key, identifier_key, concurrency, .. } => {
            assert_eq!(array_key, "items");
            assert_eq!(identifier_key, "id");
            assert_eq!(*concurrency, 4);
        },
        other => panic!("expected list-with-details, got {:?}", other),
    }
}

#[test]
fn test_detail_config_new_ignores_errors() {
    let c = DetailConfig::new("F", vec!["svc".to_string(), "op".to_string()]);
    assert!(c.ignore_errors);
    assert_eq!(c.field_name, "F");
}

#[test]
fn test_build_detail_config() {
    let c = build_detail_config("Tags", "s3api", "get-bucket-tagging", "--bucket", "my-bucket");
    assert_eq!(c.field_name, "Tags");
    assert_eq!(
        c.command,
        vec![
            "s3api".to_string(),
            "get-bucket-tagging".to_string(),
            "--bucket".to_string(),
            "my-bucket".to_string()
        ]
    );
    assert!(c.ignore_errors);
}

#[test]
fn test_with_region_appends_once() {
    let cmd = vec!["svc".to_string(), "op".to_string()];
    let with = with_region(cmd, "eu-west-1");
    assert_eq!(
        with,
        vec![
            "svc".to_string(),
            "op".to_string(),
            "--region".to_string(),
            "eu-west-1".to_string()
        ]
    );
    let again = with_region(with.clone(), "us-east-1");
    assert_eq!(again, with);
}
