use cloud_collector::collectors::ServiceType;
use cloud_collector::commands::plan_collection_tasks;

fn strings(parts: &[&str]) -> Vec<String> {
    parts.iter().map(|s| s.to_string()).collect()
}

#[test]
fn test_regional_service_runs_in_every_region() {
    let tasks = plan_collection_tasks(
        &strings(&["ec2"]),
        &strings(&["r1", "r2"]),
        "r1",
        &None,
    );
    assert_eq!(tasks.len(), 2);
    assert_eq!(tasks[0].service, ServiceType::Ec2);
    assert_eq!(tasks[0].region, "r1");
    assert_eq!(tasks[1].region, "r2");
}

#[test]
fn test_global_service_runs_once_in_default_region() {
    let tasks = plan_collection_tasks(
        &strings(&["s3"]),
        &strings(&["r1", "r2", "r3"]),
        "r1",
        &None,
    );
    assert_eq!(tasks.len(), 1);
    assert_eq!(tasks[0].service, ServiceType::S3);
    assert_eq!(tasks[0].region, "r1");
}

#[test]
fn test_unknown_service_is_skipped() {
    let tasks = plan_collection_tasks(
        &strings(&["nosuch", "ec2"]),
        &strings(&["r1"]),
        "r1",
        &None,
    );
    assert_eq!(tasks.len(), 1);
    assert_eq!(tasks[0].service, ServiceType::Ec2);
}

#[test]
fn test_region_services_filter_limits_extra_regions() {
    let filter = Some(strings(&["acm"]));
    let tasks = plan_collection_tasks(
        &strings(&["acm", "ec2"]),
        &strings(&["r1", "r2"]),
        "r1",
        &filter,
    );
    // both services in the default region, only acm in the extra one
    assert_eq!(tasks.len(), 3);
    assert_eq!((tasks[0].service, tasks[0].region.as_str()), (ServiceType::Acm, "r1"));
    assert_eq!((tasks[1].service, tasks[1].region.as_str()), (ServiceType::Acm, "r2"));
    assert_eq!((tasks[2].service, tasks[2].region.as_str()), (ServiceType::Ec2, "r1"));
}

#[test]
fn test_repeated_global_service_scheduled_once() {
    let tasks = plan_collection_tasks(
        &strings(&["iam", "iam"]),
        &strings(&["r1"]),
        "r1",
        &None,
    );
    assert_eq!(tasks.len(), 1);
}

#[test]
fn test_task_carries_requested_name() {
    let tasks = plan_collection_tasks(&strings(&["ELBv2"]), &strings(&["r1"]), "r1", &None);
    assert_eq!(tasks.len(), 1);
    assert_eq!(tasks[0].service, ServiceType::Elb);
    assert_eq!(tasks[0].name, "ELBv2");
}
