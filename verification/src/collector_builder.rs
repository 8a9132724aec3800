//! The declarative collection configuration model: region policy, collection
//! modes, detail templates, and the builder that assembles resource configs.
//!
//! Everything here is pure data: building a configuration performs no remote
//! operation. The one construction-time rule is that a list-with-details
//! configuration must name an enrichment concurrency of at least one.

use crate::strings::{str_views, string_views, to_strings};
use vstd::prelude::*;

verus! {

/// Region policy for a collector's operations.
#[derive(Debug, Clone)]
pub enum RegionMode {
    /// Use the region supplied by the caller.
    Regional,
    /// Always use "global" as the region.
    Global,
    /// Use one fixed region (e.g. "us-east-1" for S3).
    Custom(String),
}

/// The mathematical view of a region policy.
#[verifier::ext_equal]
pub enum RegionModeModel {
    Regional,
    Global,
    Custom(Seq<char>),
}

impl RegionMode {
    /// The mathematical view of this policy.
    pub open spec fn model(self) -> RegionModeModel {
        match self {
            RegionMode::Regional => RegionModeModel::Regional,
            RegionMode::Global => RegionModeModel::Global,
            RegionMode::Custom(r) => RegionModeModel::Custom(r@),
        }
    }
}

/// The concrete region a policy resolves to, given the caller's region.
pub open spec fn resolved_region(mode: RegionModeModel, region: Seq<char>) -> Seq<char> {
    match mode {
        RegionModeModel::Regional => region,
        RegionModeModel::Global => "global"@,
        RegionModeModel::Custom(r) => r,
    }
}

/// Resolve a region policy against the caller-supplied region.
pub fn resolve_region(mode: &RegionMode, region: &str) -> (r: String)
    ensures
        r@ == resolved_region(mode.model(), region@),
{
    match mode {
        RegionMode::Regional => region.to_owned(),
        RegionMode::Global => "global".to_owned(),
        RegionMode::Custom(r) => r.clone(),
    }
}

/// Template for one detail-fetch operation, reused across the items of a
/// resource type; the item's identifier is substituted at execution time.
#[derive(Debug, Clone)]
pub struct DetailTemplate {
    pub field_name: String,
    pub service: String,
    pub operation: String,
    pub param_name: String,
}

/// The mathematical view of a detail template.
#[verifier::ext_equal]
pub struct TemplateModel {
    pub field_name: Seq<char>,
    pub service: Seq<char>,
    pub operation: Seq<char>,
    pub param_name: Seq<char>,
}

impl DetailTemplate {
    /// The mathematical view of this template.
    pub open spec fn model(self) -> TemplateModel {
        TemplateModel {
            field_name: self.field_name@,
            service: self.service@,
            operation: self.operation@,
            param_name: self.param_name@,
        }
    }

    /// A template from its four parts.
    pub fn new(field_name: &str, service: &str, operation: &str, param_name: &str) -> (r: Self)
        ensures
            r.model() == (TemplateModel {
                field_name: field_name@,
                service: service@,
                operation: operation@,
                param_name: param_name@,
            }),
    {
        DetailTemplate {
            field_name: field_name.to_owned(),
            service: service.to_owned(),
            operation: operation.to_owned(),
            param_name: param_name.to_owned(),
        }
    }
}

/// The views of a sequence of templates.
pub open spec fn templates_model(s: Seq<DetailTemplate>) -> Seq<TemplateModel> {
    s.map_values(|t: DetailTemplate| t.model())
}

/// How one resource type is fetched.
#[derive(Debug, Clone)]
pub enum CollectionMode {
    /// One operation whose document is wrapped as-is.
    SimpleList { command: Vec<String> },
    /// Independent operations, each producing its own named output.
    BatchCommands { commands: Vec<(String, Vec<String>)> },
    /// One listing operation, then per-item detail enrichment.
    ListWithDetails {
        list_command: Vec<String>,
        array_key: String,
        identifier_key: String,
        detail_templates: Vec<DetailTemplate>,
        concurrency: usize,
    },
}

/// The mathematical view of a collection mode.
#[verifier::ext_equal]
pub enum ModeModel {
    Simple { command: Seq<Seq<char>> },
    Batch { commands: Seq<(Seq<char>, Seq<Seq<char>>)> },
    ListEnrich {
        list_command: Seq<Seq<char>>,
        array_key: Seq<char>,
        identifier_key: Seq<char>,
        templates: Seq<TemplateModel>,
        concurrency: int,
    },
}

impl CollectionMode {
    /// The mathematical view of this mode.
    pub open spec fn model(self) -> ModeModel {
        match self {
            CollectionMode::SimpleList { command } => ModeModel::Simple {
                command: string_views(command@),
            },
            CollectionMode::BatchCommands { commands } => ModeModel::Batch {
                commands: commands@.map_values(
                    |p: (String, Vec<String>)| (p.0@, string_views(p.1@)),
                ),
            },
            CollectionMode::ListWithDetails {
                list_command,
                array_key,
                identifier_key,
                detail_templates,
                concurrency,
            } => ModeModel::ListEnrich {
                list_command: string_views(list_command@),
                array_key: array_key@,
                identifier_key: identifier_key@,
                templates: templates_model(detail_templates@),
                concurrency: concurrency as int,
            },
        }
    }

    /// A mode is well formed when its enrichment concurrency, if any, is at
    /// least one.
    pub open spec fn wf(self) -> bool {
        match self.model() {
            ModeModel::ListEnrich { concurrency, .. } => concurrency >= 1,
            _ => true,
        }
    }
}

/// One resource type paired with the mode that fetches it.
#[derive(Debug, Clone)]
pub struct ResourceConfig {
    pub resource_type: String,
    pub mode: CollectionMode,
}

/// The mathematical view of a resource configuration.
#[verifier::ext_equal]
pub struct ConfigModel {
    pub resource_type: Seq<char>,
    pub mode: ModeModel,
}

impl ResourceConfig {
    /// The mathematical view of this configuration.
    pub open spec fn model(self) -> ConfigModel {
        ConfigModel { resource_type: self.resource_type@, mode: self.mode.model() }
    }
}

/// The views of a sequence of resource configurations.
pub open spec fn configs_model(s: Seq<ResourceConfig>) -> Seq<ConfigModel> {
    s.map_values(|c: ResourceConfig| c.model())
}

/// The error a builder reports for a configuration it must reject.
#[derive(Debug, Clone, Copy, PartialEq, Eq, Structural)]
pub enum ConfigError {
    /// A list-with-details configuration asked for an enrichment concurrency
    /// of zero.
    ZeroEnrichConcurrency,
}

/// An ordered list of resource configurations bound to a service name and a
/// region policy.
pub struct CollectorBuilder {
    service: String,
    region_mode: RegionMode,
    resources: Vec<ResourceConfig>,
}

/// The mathematical view of a builder.
#[verifier::ext_equal]
pub struct BuilderModel {
    pub service: Seq<char>,
    pub region_mode: RegionModeModel,
    pub resources: Seq<ConfigModel>,
}

impl CollectorBuilder {
    /// The mathematical view of this builder.
    pub closed spec fn model(&self) -> BuilderModel {
        BuilderModel {
            service: self.service@,
            region_mode: self.region_mode.model(),
            resources: configs_model(self.resources@),
        }
    }

    /// Every configuration this builder holds is well formed.
    pub closed spec fn wf(&self) -> bool {
        forall|i: int|
            0 <= i < self.resources@.len() ==> (#[trigger] self.resources@[i].mode).wf()
    }

    /// A builder for one service, with no resources yet.
    pub fn new(service: &str, region_mode: RegionMode) -> (r: Self)
        ensures
            r.model() == (BuilderModel {
                service: service@,
                region_mode: region_mode.model(),
                resources: Seq::empty(),
            }),
            r.wf(),
    {
        let r = CollectorBuilder {
            service: service.to_owned(),
            region_mode,
            resources: Vec::new(),
        };
        proof {
            assert(configs_model(r.resources@) =~= Seq::<ConfigModel>::empty());
        }
        r
    }

    /// The service name this builder collects for.
    pub fn service(&self) -> (r: &String)
        ensures
            r@ == self.model().service,
    {
        &self.service
    }

    /// The region policy of this builder.
    pub fn region_mode(&self) -> (r: &RegionMode)
        ensures
            r.model() == self.model().region_mode,
    {
        &self.region_mode
    }

    /// The resource configurations added so far, in order.
    pub fn resources(&self) -> (r: &Vec<ResourceConfig>)
        ensures
            configs_model(r@) == self.model().resources,
            self.wf() ==> forall|i: int| 0 <= i < r@.len() ==> (#[trigger] r@[i].mode).wf(),
    {
        &self.resources
    }

    /// Append a plain listing for one resource type.
    pub fn add_simple_list(self, resource_type: &str, command: Vec<&str>) -> (r: Self)
        ensures
            r.model() == (BuilderModel {
                resources: self.model().resources.push(
                    ConfigModel {
                        resource_type: resource_type@,
                        mode: ModeModel::Simple { command: str_views(command@) },
                    },
                ),
                ..self.model()
            }),
            self.wf() ==> r.wf(),
    {
        let mut this = self;
        this.resources.push(
            ResourceConfig {
                resource_type: resource_type.to_owned(),
                mode: CollectionMode::SimpleList { command: to_strings(&command) },
            },
        );
        proof {
            assert(this.model().resources =~~= self.model().resources.push(
                ConfigModel {
                    resource_type: resource_type@,
                    mode: ModeModel::Simple { command: str_views(command@) },
                },
            ));
        }
        this
    }

    /// Append a batch of independent listings, one per named resource type.
    /// The batch itself stands under the marker resource type "batch".
    pub fn add_batch_commands(self, commands: Vec<(&str, Vec<&str>)>) -> (r: Self)
        ensures
            r.model() == (BuilderModel {
                resources: self.model().resources.push(
                    ConfigModel {
                        resource_type: "batch"@,
                        mode: ModeModel::Batch {
                            commands: commands@.map_values(
                                |p: (&str, Vec<&str>)| (p.0@, str_views(p.1@)),
                            ),
                        },
                    },
                ),
                ..self.model()
            }),
            self.wf() ==> r.wf(),
    {
        let mut owned: Vec<(String, Vec<String>)> = Vec::new();
        let mut rest = commands;
        let ghost all = rest@;
        let mut i: usize = 0;
        while i < rest.len()
            invariant
                i <= rest.len(),
                rest@ == all,
                owned@.len() == i,
                forall|j: int| 0 <= j < i ==> #[trigger] owned@[j].0@ == all[j].0@
                    && string_views(owned@[j].1@) == str_views(all[j].1@),
            decreases rest.len() - i,
        {
            let name: &str = rest[i].0;
            let converted = to_strings(&rest[i].1);
            owned.push((name.to_owned(), converted));
            i = i + 1;
        }
        let mut this = self;
        this.resources.push(
            ResourceConfig {
                resource_type: "batch".to_owned(),
                mode: CollectionMode::BatchCommands { commands: owned },
            },
        );
        proof {
            assert(owned@.map_values(|p: (String, Vec<String>)| (p.0@, string_views(p.1@)))
                =~~= all.map_values(|p: (&str, Vec<&str>)| (p.0@, str_views(p.1@))));
            assert(this.model().resources =~~= self.model().resources.push(
                ConfigModel {
                    resource_type: "batch"@,
                    mode: ModeModel::Batch {
                        commands: all.map_values(|p: (&str, Vec<&str>)| (p.0@, str_views(p.1@))),
                    },
                },
            ));
        }
        this
    }

    /// Append a listing whose items are each enriched through the given
    /// detail templates. A zero `concurrency` is a configuration error and is
    /// rejected here, at construction time.
    pub fn add_detailed_resource(
        self,
        resource_type: &str,
        list_command: Vec<&str>,
        array_key: &str,
        identifier_key: &str,
        concurrency: usize,
        detail_templates: Vec<DetailTemplate>,
    ) -> (r: Result<Self, ConfigError>)
        ensures
            r is Ok <==> concurrency >= 1,
            r matches Ok(b) ==> b.model() == (BuilderModel {
                resources: self.model().resources.push(
                    ConfigModel {
                        resource_type: resource_type@,
                        mode: ModeModel::ListEnrich {
                            list_command: str_views(list_command@),
                            array_key: array_key@,
                            identifier_key: identifier_key@,
                            templates: templates_model(detail_templates@),
                            concurrency: concurrency as int,
                        },
                    },
                ),
                ..self.model()
            }),
            self.wf() ==> (r matches Ok(b) ==> b.wf()),
            r matches Err(e) ==> e == ConfigError::ZeroEnrichConcurrency,
    {
        if concurrency == 0 {
            return Err(ConfigError::ZeroEnrichConcurrency);
        }
        let mut this = self;
        this.resources.push(
            ResourceConfig {
                resource_type: resource_type.to_owned(),
                mode: CollectionMode::ListWithDetails {
                    list_command: to_strings(&list_command),
                    array_key: array_key.to_owned(),
                    identifier_key: identifier_key.to_owned(),
                    detail_templates,
                    concurrency,
                },
            },
        );
        proof {
            assert(this.model().resources =~~= self.model().resources.push(
                ConfigModel {
                    resource_type: resource_type@,
                    mode: ModeModel::ListEnrich {
                        list_command: str_views(list_command@),
                        array_key: array_key@,
                        identifier_key: identifier_key@,
                        templates: templates_model(detail_templates@),
                        concurrency: concurrency as int,
                    },
                },
            ));
        }
        Ok(this)
    }
}

} // verus!
