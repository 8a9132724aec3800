use cloud_collector::aws_cli::{region_or_default, AwsCli};
use cloud_collector::document::Document;
use cloud_collector::models::ResourceCollection;
use cloud_collector::output::combine_by_service_region;
use cloud_collector::regions::{check_regions, regions_with_default};

fn strings(parts: &[&str]) -> Vec<String> {
    parts.iter().map(|s| s.to_string()).collect()
}

#[test]
fn test_regions_with_default_drops_repeats_of_default() {
    let regions = regions_with_default(
        "r1".to_string(),
        strings(&["r2", "r1", "r3"]),
    );
    assert_eq!(regions, strings(&["r1", "r2", "r3"]));
}

#[test]
fn test_check_regions_accepts_known() {
    let valid = strings(&["us-east-1", "eu-west-1"]);
    assert!(check_regions(&strings(&["eu-west-1"]), &valid).is_ok());
    assert!(check_regions(&strings(&[]), &valid).is_ok());
}

#[test]
fn test_check_regions_reports_first_unknown_with_suggestions() {
    let valid = strings(&["us-east-1", "us-east-2", "us-west-1", "eu-west-1"]);
    let err = check_regions(&strings(&["us-east-1", "us-esat-1"]), &valid).unwrap_err();
    assert_eq!(err.invalid, "us-esat-1");
    // every us-* region begins with the same three characters
    assert_eq!(err.suggestions, strings(&["us-east-1", "us-east-2", "us-west-1"]));
}

#[test]
fn test_check_regions_samples_when_nothing_similar() {
    let valid = strings(&["us-east-1", "eu-west-1"]);
    let err = check_regions(&strings(&["zz"]), &valid).unwrap_err();
    assert_eq!(err.invalid, "zz");
    assert_eq!(err.suggestions, valid);
}

#[test]
fn test_region_or_default() {
    assert_eq!(region_or_default("".to_string()), "ap-southeast-1");
    assert_eq!(region_or_default("eu-west-1".to_string()), "eu-west-1");
}

#[test]
fn test_invocation_args() {
    let cli = AwsCli::new("work".to_string());
    assert_eq!(cli.profile().as_str(), "work");
    let full = cli.invocation_args(&strings(&["ec2", "describe-vpcs"]));
    assert_eq!(
        full,
        strings(&[
            "--profile",
            "work",
            "--output",
            "json",
            "--no-cli-pager",
            "ec2",
            "describe-vpcs"
        ])
    );
}

fn record(service: &str, region: &str, resource_type: &str, payload: &str, ts: &str) -> ResourceCollection {
    ResourceCollection {
        service: service.to_string(),
        region: region.to_string(),
        resource_type: resource_type.to_string(),
        resources: Document::Text(payload.to_string()),
        collected_at: ts.to_string(),
    }
}

#[test]
fn test_combine_groups_by_service_and_region() {
    let collections = vec![
        record("ec2", "r1", "instances", "pi", "t1"),
        record("ec2", "r1", "vpcs", "pv", "t2"),
        record("ec2", "r2", "instances", "px", "t3"),
        record("s3", "r1", "buckets", "pb", "t4"),
    ];
    let combined = combine_by_service_region(&collections);
    assert_eq!(combined.len(), 3);
    assert_eq!(combined[0].service, "ec2");
    assert_eq!(combined[0].region, "r1");
    assert_eq!(combined[0].collected_at, "t1");
    assert_eq!(
        combined[0].resources.get("instances"),
        Some(&Document::Text("pi".to_string()))
    );
    assert_eq!(combined[0].resources.get("vpcs"), Some(&Document::Text("pv".to_string())));
    assert_eq!(combined[1].region, "r2");
    assert_eq!(combined[1].collected_at, "t3");
    assert_eq!(combined[2].service, "s3");
}

#[test]
fn test_combine_of_nothing_is_empty() {
    assert_eq!(combine_by_service_region(&Vec::new()).len(), 0);
}
