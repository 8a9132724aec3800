use cloud_collector::collector_builder::{CollectionMode, RegionMode};
use cloud_collector::collectors::{
    get_all_services, CloudWatchCollector, Ec2Collector, IamCollector, LambdaCollector,
    S3Collector, ServiceCategory, ServiceType, SnsCollector, WafCollector,
};

#[test]
fn test_from_str_is_case_insensitive() {
    assert_eq!(ServiceType::from_str("ec2"), Some(ServiceType::Ec2));
    assert_eq!(ServiceType::from_str("EC2"), Some(ServiceType::Ec2));
    assert_eq!(ServiceType::from_str("CloudFormation"), Some(ServiceType::CloudFormation));
    assert_eq!(ServiceType::from_str("elbv2"), Some(ServiceType::Elb));
    assert_eq!(ServiceType::from_str("nosuch"), None);
    assert_eq!(ServiceType::from_str(""), None);
}

#[test]
fn test_as_str_round_trips() {
    for st in ServiceType::all() {
        assert_eq!(ServiceType::from_str(st.as_str()), Some(st));
    }
}

#[test]
fn test_all_services_count() {
    assert_eq!(ServiceType::all().len(), 21);
    assert_eq!(get_all_services().len(), 21);
    assert_eq!(get_all_services()[0], "ec2");
}

#[test]
fn test_is_global() {
    assert!(ServiceType::S3.is_global());
    assert!(ServiceType::Iam.is_global());
    assert!(!ServiceType::Ec2.is_global());
    assert!(!ServiceType::Route53.is_global());
}

#[test]
fn test_categories() {
    assert_eq!(ServiceType::Ec2.category(), ServiceCategory::Compute);
    assert_eq!(ServiceType::S3.category(), ServiceCategory::Storage);
    assert_eq!(ServiceType::Route53.category(), ServiceCategory::Networking);
    assert_eq!(ServiceType::Iam.category(), ServiceCategory::Security);
    assert_eq!(ServiceType::CloudWatch.category(), ServiceCategory::Management);
    assert_eq!(ServiceType::Sqs.category(), ServiceCategory::Integration);
    assert_eq!(ServiceType::Ecr.category(), ServiceCategory::DevTools);
}

#[test]
fn test_display_names() {
    assert_eq!(ServiceCategory::Compute.display_name(), "🔧 Compute & Containers");
    assert_eq!(ServiceCategory::DevTools.display_name(), "🐳 Developer Tools");
}

#[test]
fn test_ec2_config_is_one_batch() {
    let b = Ec2Collector::config();
    assert_eq!(b.service().as_str(), "ec2");
    let resources = b.resources();
    assert_eq!(resources.len(), 1);
    match &resources[0].mode {
        CollectionMode::BatchCommands { commands } => {
            assert_eq!(commands.len(), 22);
            assert_eq!(commands[0].0, "instances");
        },
        other => panic!("expected batch commands, got {:?}", other),
    }
}

#[test]
fn test_iam_config_is_global() {
    let b = IamCollector::config();
    assert!(matches!(b.region_mode(), RegionMode::Global));
    assert_eq!(b.resources().len(), 8);
}

#[test]
fn test_s3_config_uses_fixed_region() {
    let b = S3Collector::config();
    match b.region_mode() {
        RegionMode::Custom(r) => assert_eq!(r, "us-east-1"),
        other => panic!("expected a fixed region, got {:?}", other),
    }
    match &b.resources()[0].mode {
        CollectionMode::ListWithDetails { detail_templates, concurrency, .. } => {
            assert_eq!(detail_templates.len(), 18);
            assert_eq!(*concurrency, 5);
        },
        other => panic!("expected list-with-details, got {:?}", other),
    }
}

#[test]
fn test_waf_config_varies_by_region() {
    assert_eq!(WafCollector::config("us-east-1").resources().len(), 5);
    assert_eq!(WafCollector::config("eu-west-1").resources().len(), 4);
}

#[test]
fn test_other_configs_shape() {
    assert_eq!(CloudWatchCollector::config().resources().len(), 5);
    assert_eq!(LambdaCollector::config().resources().len(), 3);
    assert_eq!(SnsCollector::config().resources().len(), 2);
}
