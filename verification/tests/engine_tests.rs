use cloud_collector::collector_builder::{CollectorBuilder, DetailTemplate, RegionMode};
use cloud_collector::document::{Document, Field};
use cloud_collector::engine::{
    assemble_batch, assemble_list_details, assemble_simple_list, Aggregator, ResponseTable,
};
use cloud_collector::engine::{run_collection, run_collection_at, run_collections};
use cloud_collector::models::ResourceCollection;

fn obj(fields: Vec<(&str, Document)>) -> Document {
    Document::Object(
        fields
            .into_iter()
            .map(|(n, v)| Field { name: n.to_string(), value: v })
            .collect(),
    )
}

fn text(s: &str) -> Document {
    Document::Text(s.to_string())
}

fn args(parts: &[&str]) -> Vec<String> {
    parts.iter().map(|s| s.to_string()).collect()
}

#[test]
fn test_response_table_last_entry_wins() {
    let mut table = ResponseTable::new();
    assert_eq!(table.perform(&args(&["svc", "op"])), None);
    table.insert(args(&["svc", "op"]), Some(text("first")));
    table.insert(args(&["svc", "op"]), Some(text("second")));
    assert_eq!(table.perform(&args(&["svc", "op"])), Some(text("second")));
    table.insert(args(&["svc", "op"]), None);
    assert_eq!(table.perform(&args(&["svc", "op"])), None);
}

#[test]
fn test_assemble_simple_list() {
    let some = assemble_simple_list("svc", "r1", "things", "ts", Some(text("payload")));
    assert_eq!(some.len(), 1);
    assert_eq!(some[0].service, "svc");
    assert_eq!(some[0].region, "r1");
    assert_eq!(some[0].resource_type, "things");
    assert_eq!(some[0].resources, text("payload"));
    assert_eq!(some[0].collected_at, "ts");
    let none = assemble_simple_list("svc", "r1", "things", "ts", None);
    assert_eq!(none.len(), 0);
}

#[test]
fn test_assemble_batch_counts_successes() {
    // one record per success, failures omitted: between 0 and N records
    let outcomes = vec![
        ("a".to_string(), Some(text("pa"))),
        ("b".to_string(), None),
        ("c".to_string(), Some(text("pc"))),
    ];
    let records = assemble_batch("svc", "r1", "ts", outcomes);
    assert_eq!(records.len(), 2);
    assert_eq!(records[0].resource_type, "a");
    assert_eq!(records[1].resource_type, "c");
    let all_failed = vec![("a".to_string(), None), ("b".to_string(), None)];
    assert_eq!(assemble_batch("svc", "r1", "ts", all_failed).len(), 0);
}

#[test]
fn test_assemble_list_details_wraps_items() {
    let items = vec![text("x"), text("y")];
    let record = assemble_list_details("svc", "r1", "things", "ts", "items", items);
    assert_eq!(record.resources.get("items"), Some(&Document::Array(vec![text("x"), text("y")])));
}

#[test]
fn test_aggregator_keeps_everything() {
    let mut agg = Aggregator::new();
    assert_eq!(agg.len(), 0);
    agg.absorb(assemble_simple_list("svc", "r1", "a", "ts", Some(text("p"))));
    agg.absorb(assemble_simple_list("svc", "r2", "a", "ts", Some(text("p"))));
    // duplicate (resource_type, service) pairs across regions stay distinct
    assert_eq!(agg.len(), 2);
    let records = agg.into_records();
    assert_eq!(records[0].region, "r1");
    assert_eq!(records[1].region, "r2");
}

fn enrich_builder(templates: Vec<DetailTemplate>) -> CollectorBuilder {
    CollectorBuilder::new("svc", RegionMode::Regional)
        .add_detailed_resource("things", vec!["svc", "list-things"], "items", "id", 2, templates)
        .unwrap()
}

fn scenario_table() -> ResponseTable {
    let mut table = ResponseTable::new();
    table.insert(
        args(&["svc", "list-things"]),
        Some(obj(vec![(
            "items",
            Document::Array(vec![obj(vec![("id", text("a"))]), obj(vec![("id", text("b"))])]),
        )])),
    );
    table.insert(args(&["svc", "get-d1", "--id", "a", "--region", "r1"]), Some(text("a1")));
    table.insert(args(&["svc", "get-d2", "--id", "a", "--region", "r1"]), Some(text("a2")));
    table.insert(args(&["svc", "get-d1", "--id", "b", "--region", "r1"]), Some(text("b1")));
    // the second detail call for "b" always fails: no entry
    table
}

#[test]
fn test_list_then_enrich_scenario() {
    // two items, two templates, b's second template fails: one record whose
    // array still has both items; "a" carries both fields, "b" only the first
    let builder = enrich_builder(vec![
        DetailTemplate::new("d1", "svc", "get-d1", "--id"),
        DetailTemplate::new("d2", "svc", "get-d2", "--id"),
    ]);
    let records = run_collection_at(&builder, "r1", "ts", &scenario_table());
    assert_eq!(records.len(), 1);
    let payload = &records[0].resources;
    let items = match payload.get("items") {
        Some(Document::Array(v)) => v,
        other => panic!("expected an item array, got {:?}", other),
    };
    assert_eq!(items.len(), 2);
    assert_eq!(items[0].get("id"), Some(&text("a")));
    assert_eq!(items[0].get("d1"), Some(&text("a1")));
    assert_eq!(items[0].get("d2"), Some(&text("a2")));
    assert_eq!(items[1].get("id"), Some(&text("b")));
    assert_eq!(items[1].get("d1"), Some(&text("b1")));
    assert_eq!(items[1].get("d2"), None);
}

#[test]
fn test_enrichment_is_order_independent() {
    // permuting the detail templates changes nothing about the merged fields
    let forward = enrich_builder(vec![
        DetailTemplate::new("d1", "svc", "get-d1", "--id"),
        DetailTemplate::new("d2", "svc", "get-d2", "--id"),
    ]);
    let backward = enrich_builder(vec![
        DetailTemplate::new("d2", "svc", "get-d2", "--id"),
        DetailTemplate::new("d1", "svc", "get-d1", "--id"),
    ]);
    let table = scenario_table();
    let a = run_collection_at(&forward, "r1", "ts", &table);
    let b = run_collection_at(&backward, "r1", "ts", &table);
    assert_eq!(a.len(), 1);
    assert_eq!(b.len(), 1);
    for key in ["items"] {
        let ia = match a[0].resources.get(key) {
            Some(Document::Array(v)) => v,
            other => panic!("expected an item array, got {:?}", other),
        };
        let ib = match b[0].resources.get(key) {
            Some(Document::Array(v)) => v,
            other => panic!("expected an item array, got {:?}", other),
        };
        assert_eq!(ia.len(), ib.len());
        for (x, y) in ia.iter().zip(ib.iter()) {
            // field-set equality: same fields under each name
            for field in ["id", "d1", "d2"] {
                assert_eq!(x.get(field), y.get(field));
            }
        }
    }
}

#[test]
fn test_item_without_identifier_passes_through() {
    let builder = enrich_builder(vec![DetailTemplate::new("d1", "svc", "get-d1", "--id")]);
    let mut table = ResponseTable::new();
    table.insert(
        args(&["svc", "list-things"]),
        Some(obj(vec![("items", Document::Array(vec![obj(vec![("name", text("x"))])]))])),
    );
    let records = run_collection_at(&builder, "r1", "ts", &table);
    assert_eq!(records.len(), 1);
    let items = match records[0].resources.get("items") {
        Some(Document::Array(v)) => v,
        other => panic!("expected an item array, got {:?}", other),
    };
    assert_eq!(items[0], obj(vec![("name", text("x"))]));
}

#[test]
fn test_missing_list_array_yields_nothing() {
    let builder = enrich_builder(vec![]);
    let mut table = ResponseTable::new();
    table.insert(args(&["svc", "list-things"]), Some(obj(vec![("other", text("x"))])));
    assert_eq!(run_collection_at(&builder, "r1", "ts", &table).len(), 0);
}

#[test]
fn test_plain_list_failure_yields_nothing() {
    // a failed listing produces zero records and no panic
    let builder = CollectorBuilder::new("svc", RegionMode::Regional)
        .add_simple_list("things", vec!["svc", "list-things"]);
    let table = ResponseTable::new();
    let records = run_collection_at(&builder, "r1", "ts", &table);
    assert_eq!(records.len(), 0);
}

#[test]
fn test_run_is_idempotent_up_to_timestamp() {
    let builder = enrich_builder(vec![
        DetailTemplate::new("d1", "svc", "get-d1", "--id"),
        DetailTemplate::new("d2", "svc", "get-d2", "--id"),
    ]);
    let table = scenario_table();
    let a = run_collection_at(&builder, "r1", "early", &table);
    let b = run_collection_at(&builder, "r1", "late", &table);
    assert_eq!(a.len(), b.len());
    for (x, y) in a.iter().zip(b.iter()) {
        assert_eq!(x.service, y.service);
        assert_eq!(x.region, y.region);
        assert_eq!(x.resource_type, y.resource_type);
        assert_eq!(x.resources, y.resources);
        assert_eq!(x.collected_at, "early");
        assert_eq!(y.collected_at, "late");
    }
}

#[test]
fn test_run_collection_uses_clock() {
    let builder = CollectorBuilder::new("svc", RegionMode::Regional)
        .add_simple_list("things", vec!["svc", "list-things"]);
    let mut table = ResponseTable::new();
    table.insert(args(&["svc", "list-things"]), Some(text("p")));
    let records: Vec<ResourceCollection> = run_collection(&builder, "r1", &table);
    assert_eq!(records.len(), 1);
    assert!(!records[0].collected_at.is_empty());
}

#[test]
fn test_global_region_mode_labels_records() {
    let builder = CollectorBuilder::new("iam", RegionMode::Global)
        .add_simple_list("users", vec!["iam", "list-users"]);
    let mut table = ResponseTable::new();
    table.insert(args(&["iam", "list-users"]), Some(text("u")));
    let records = run_collection_at(&builder, "eu-west-1", "ts", &table);
    assert_eq!(records.len(), 1);
    assert_eq!(records[0].region, "global");
}

#[test]
fn test_batch_through_run() {
    let builder = CollectorBuilder::new("ec2", RegionMode::Regional).add_batch_commands(vec![
        ("instances", vec!["ec2", "describe-instances"]),
        ("vpcs", vec!["ec2", "describe-vpcs"]),
        ("subnets", vec!["ec2", "describe-subnets"]),
    ]);
    let mut table = ResponseTable::new();
    table.insert(args(&["ec2", "describe-instances"]), Some(text("i")));
    table.insert(args(&["ec2", "describe-subnets"]), Some(text("s")));
    let records = run_collection_at(&builder, "r1", "ts", &table);
    assert_eq!(records.len(), 2);
    assert_eq!(records[0].resource_type, "instances");
    assert_eq!(records[1].resource_type, "subnets");
}

#[test]
fn test_builder_collect_entry_points() {
    let builder = CollectorBuilder::new("iam", RegionMode::Global)
        .add_simple_list("users", vec!["iam", "list-users"]);
    let mut table = ResponseTable::new();
    table.insert(args(&["iam", "list-users"]), Some(text("u")));
    let via_collect = builder.collect(&table);
    let via_region = builder.collect_with_region(&table, "eu-west-1");
    assert_eq!(via_collect.len(), 1);
    assert_eq!(via_region.len(), 1);
    // a global builder labels its records "global" either way
    assert_eq!(via_collect[0].region, "global");
    assert_eq!(via_region[0].region, "global");
}

#[test]
fn test_run_collections_aggregates_every_builder() {
    let a = CollectorBuilder::new("svc", RegionMode::Regional)
        .add_simple_list("things", vec!["svc", "list-things"]);
    let b = CollectorBuilder::new("other", RegionMode::Regional)
        .add_simple_list("parts", vec!["other", "list-parts"]);
    let mut table = ResponseTable::new();
    table.insert(args(&["svc", "list-things"]), Some(text("t")));
    table.insert(args(&["other", "list-parts"]), Some(text("p")));
    let records = run_collections(&vec![a, b], "r1", "ts", &table);
    assert_eq!(records.len(), 2);
    assert_eq!(records[0].service, "svc");
    assert_eq!(records[1].service, "other");
}
