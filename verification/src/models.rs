//! Data models for output records and run metadata.

use crate::document::{DocModel, Document};
use crate::strings::string_views;
use vstd::prelude::*;

verus! {

/// One output record: everything collected for one resource type in one
/// region, created once per successfully completed collection-mode
/// evaluation and immutable afterwards.
#[derive(Debug, PartialEq)]
pub struct ResourceCollection {
    pub service: String,
    pub region: String,
    pub resource_type: String,
    pub resources: Document,
    pub collected_at: String,
}

/// The mathematical view of an output record.
#[verifier::ext_equal]
pub struct RecordModel {
    pub service: Seq<char>,
    pub region: Seq<char>,
    pub resource_type: Seq<char>,
    pub resources: DocModel,
    pub collected_at: Seq<char>,
}

impl ResourceCollection {
    /// The mathematical view of this record.
    pub open spec fn model(self) -> RecordModel {
        RecordModel {
            service: self.service@,
            region: self.region@,
            resource_type: self.resource_type@,
            resources: self.resources.model(),
            collected_at: self.collected_at@,
        }
    }
}

/// The views of a sequence of output records.
pub open spec fn records_model(s: Seq<ResourceCollection>) -> Seq<RecordModel> {
    s.map_values(|r: ResourceCollection| r.model())
}

/// Two records that agree on everything except the observation timestamp.
pub open spec fn record_eq_mod_time(a: RecordModel, b: RecordModel) -> bool {
    &&& a.service == b.service
    &&& a.region == b.region
    &&& a.resource_type == b.resource_type
    &&& a.resources == b.resources
}

/// Pointwise equality of two record sequences up to timestamps.
pub open spec fn records_eq_mod_time(a: Seq<RecordModel>, b: Seq<RecordModel>) -> bool {
    &&& a.len() == b.len()
    &&& forall|i: int| 0 <= i < a.len() ==> record_eq_mod_time(#[trigger] a[i], b[i])
}

/// Metadata describing one whole collection run.
#[derive(Debug, PartialEq)]
pub struct Metadata {
    pub generated_at: String,
    pub aws_profile: String,
    pub regions: Vec<String>,
    pub services: Vec<String>,
}

/// The mathematical view of run metadata.
#[verifier::ext_equal]
pub struct MetadataModel {
    pub generated_at: Seq<char>,
    pub aws_profile: Seq<char>,
    pub regions: Seq<Seq<char>>,
    pub services: Seq<Seq<char>>,
}

impl Metadata {
    /// The mathematical view of this metadata.
    pub open spec fn model(self) -> MetadataModel {
        MetadataModel {
            generated_at: self.generated_at@,
            aws_profile: self.aws_profile@,
            regions: string_views(self.regions@),
            services: string_views(self.services@),
        }
    }
}

} // verus!
