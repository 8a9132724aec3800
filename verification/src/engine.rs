//! The collection orchestrator: interpreting a builder's configurations over
//! remote-operation outcomes, assembling output records, and aggregating the
//! records of many orchestrations.
//!
//! The orchestration itself is stated as spec functions over a response
//! oracle (what the remote client returns for each operation), and the
//! executable steps are proved to follow them. [`ResponseTable`] is a
//! deterministic in-memory client used to run a whole collection in one call.

use crate::collector_builder::{
    configs_model, resolve_region, resolved_region, templates_model, BuilderModel,
    CollectionMode, CollectorBuilder, ConfigModel, DetailTemplate, ModeModel, ResourceConfig,
    TemplateModel,
};
use crate::document::{opt_model, seq_model, DocModel, Document};
use crate::models::{record_eq_mod_time, records_eq_mod_time, records_model, RecordModel, ResourceCollection};
use crate::parallel::{
    apply_detail_results, detail_operations, enriched_model, extract_array, extract_string,
    outcomes_model, region_applied, template_command, with_region,
};
use crate::strings::{args_eq, copy_strings, string_views};
use vstd::prelude::*;

verus! {

/// A deterministic remote-operation client: a table from operation arguments
/// to the outcome the client returns for them. An operation the table does
/// not name fails.
pub struct ResponseTable {
    entries: Vec<(Vec<String>, Option<Document>)>,
}

/// The outcome table folded into a map; a later entry for the same operation
/// overrides an earlier one.
pub open spec fn table_model(s: Seq<(Vec<String>, Option<Document>)>) -> Map<
    Seq<Seq<char>>,
    Option<DocModel>,
>
    decreases s,
{
    if s.len() == 0 {
        Map::empty()
    } else {
        table_model(s.subrange(0, s.len() - 1)).insert(
            string_views(s[s.len() - 1].0@),
            opt_model(s[s.len() - 1].1),
        )
    }
}

/// When entry `i` is the last entry for `op`, the table holds its outcome.
proof fn lemma_table_found(s: Seq<(Vec<String>, Option<Document>)>, op: Seq<Seq<char>>, i: int)
    requires
        0 <= i < s.len(),
        string_views(s[i].0@) == op,
        forall|j: int| i < j < s.len() ==> string_views(#[trigger] s[j].0@) != op,
    ensures
        table_model(s).contains_key(op),
        table_model(s)[op] == opt_model(s[i].1),
    decreases s,
{
    if i < s.len() - 1 {
        lemma_table_found(s.subrange(0, s.len() - 1), op, i);
    }
}

/// An operation no entry names is absent from the table.
proof fn lemma_table_absent(s: Seq<(Vec<String>, Option<Document>)>, op: Seq<Seq<char>>)
    requires
        forall|j: int| 0 <= j < s.len() ==> string_views(#[trigger] s[j].0@) != op,
    ensures
        !table_model(s).contains_key(op),
    decreases s,
{
    if s.len() > 0 {
        lemma_table_absent(s.subrange(0, s.len() - 1), op);
    }
}

impl ResponseTable {
    /// The mathematical view of this table.
    pub closed spec fn model(self) -> Map<Seq<Seq<char>>, Option<DocModel>> {
        table_model(self.entries@)
    }

    /// What the client returns for `op`: the scripted document on success,
    /// nothing on a scripted failure or an operation the table does not name.
    pub open spec fn response(self, op: Seq<Seq<char>>) -> Option<DocModel> {
        if self.model().contains_key(op) {
            self.model()[op]
        } else {
            None
        }
    }

    /// An empty table: every operation fails.
    pub fn new() -> (r: Self)
        ensures
            r.model() == Map::<Seq<Seq<char>>, Option<DocModel>>::empty(),
    {
        ResponseTable { entries: Vec::new() }
    }

    /// Script the outcome of one operation.
    pub fn insert(&mut self, op: Vec<String>, outcome: Option<Document>)
        ensures
            final(self).model() == old(self).model().insert(string_views(op@), opt_model(outcome)),
    {
        let ghost pre = self.entries@;
        self.entries.push((op, outcome));
        proof {
            assert(self.entries@.subrange(0, self.entries@.len() - 1) =~= pre);
        }
    }

    /// Perform one operation against the table.
    pub fn perform(&self, op: &Vec<String>) -> (r: Option<Document>)
        ensures
            match r {
                Some(d) => self.response(string_views(op@)) == Some(d.model()),
                None => self.response(string_views(op@)) is None,
            },
    {
        let n = self.entries.len();
        let mut i = n;
        while i > 0
            invariant
                i <= n,
                n == self.entries.len(),
                forall|j: int| i <= j < n ==> string_views(
                    #[trigger] self.entries@[j].0@,
                ) != string_views(op@),
            decreases i,
        {
            i = i - 1;
            if args_eq(&self.entries[i].0, op) {
                proof {
                    lemma_table_found(self.entries@, string_views(op@), i as int);
                }
                return match &self.entries[i].1 {
                    Some(d) => Some(d.deep_copy()),
                    None => None,
                };
            }
        }
        proof {
            lemma_table_absent(self.entries@, string_views(op@));
        }
        None
    }
}

/// One output record.
pub open spec fn record_of(
    service: Seq<char>,
    region: Seq<char>,
    resource_type: Seq<char>,
    resources: DocModel,
    ts: Seq<char>,
) -> RecordModel {
    RecordModel { service, region, resource_type, resources, collected_at: ts }
}

/// The records of one plain listing: one on success, none on failure.
pub open spec fn simple_records(
    service: Seq<char>,
    region: Seq<char>,
    resource_type: Seq<char>,
    outcome: Option<DocModel>,
    ts: Seq<char>,
) -> Seq<RecordModel> {
    match outcome {
        Some(d) => seq![record_of(service, region, resource_type, d, ts)],
        None => Seq::empty(),
    }
}

/// The records of a batch of independent listings: one per success, in batch
/// order, each failure simply omitted.
pub open spec fn batch_records(
    service: Seq<char>,
    region: Seq<char>,
    outcomes: Seq<(Seq<char>, Option<DocModel>)>,
    ts: Seq<char>,
) -> Seq<RecordModel>
    decreases outcomes,
{
    if outcomes.len() == 0 {
        Seq::empty()
    } else {
        simple_records(service, region, outcomes[0].0, outcomes[0].1, ts) + batch_records(
            service,
            region,
            outcomes.subrange(1, outcomes.len() as int),
            ts,
        )
    }
}

/// A whole listing's enriched items wrapped back under the array key.
pub open spec fn wrapped_items(array_key: Seq<char>, items: Seq<DocModel>) -> DocModel {
    DocModel::Object(
        Map::<Seq<char>, DocModel>::empty().insert(array_key, DocModel::Array(items)),
    )
}

/// Assemble the outcome of one plain listing.
pub fn assemble_simple_list(
    service: &str,
    region: &str,
    resource_type: &str,
    timestamp: &str,
    outcome: Option<Document>,
) -> (r: Vec<ResourceCollection>)
    ensures
        records_model(r@) == simple_records(
            service@,
            region@,
            resource_type@,
            opt_model(outcome),
            timestamp@,
        ),
{
    let mut out: Vec<ResourceCollection> = Vec::new();
    match outcome {
        Some(d) => {
            out.push(
                ResourceCollection {
                    service: service.to_owned(),
                    region: region.to_owned(),
                    resource_type: resource_type.to_owned(),
                    resources: d,
                    collected_at: timestamp.to_owned(),
                },
            );
            proof {
                assert(records_model(out@) =~= simple_records(
                    service@,
                    region@,
                    resource_type@,
                    opt_model(outcome),
                    timestamp@,
                ));
            }
        },
        None => {
            proof {
                assert(records_model(out@) =~= Seq::<RecordModel>::empty());
            }
        },
    }
    out
}

/// Assemble the outcomes of a batch of independent listings.
pub fn assemble_batch(
    service: &str,
    region: &str,
    timestamp: &str,
    outcomes: Vec<(String, Option<Document>)>,
) -> (r: Vec<ResourceCollection>)
    ensures
        records_model(r@) == batch_records(
            service@,
            region@,
            outcomes_model(outcomes@),
            timestamp@,
        ),
{
    let ghost all = outcomes_model(outcomes@);
    let mut rest = outcomes;
    let mut out: Vec<ResourceCollection> = Vec::new();
    while rest.len() > 0
        invariant
            records_model(out@) + batch_records(
                service@,
                region@,
                outcomes_model(rest@),
                timestamp@,
            ) == batch_records(service@, region@, all, timestamp@),
        decreases rest.len(),
    {
        let ghost before = outcomes_model(rest@);
        let (name, outcome) = rest.remove(0);
        proof {
            assert(outcomes_model(rest@) =~= before.subrange(1, before.len() as int));
            assert(before[0] == (name@, opt_model(outcome)));
        }
        let mut produced = assemble_simple_list(
            service,
            region,
            name.as_str(),
            timestamp,
            outcome,
        );
        let ghost out_before = records_model(out@);
        let ghost produced_m = records_model(produced@);
        out.append(&mut produced);
        proof {
            assert(records_model(out@) =~= out_before + produced_m);
            assert(out_before + produced_m + batch_records(
                service@,
                region@,
                outcomes_model(rest@),
                timestamp@,
            ) =~= out_before + (produced_m + batch_records(
                service@,
                region@,
                outcomes_model(rest@),
                timestamp@,
            )));
        }
    }
    proof {
        assert(batch_records(service@, region@, outcomes_model(rest@), timestamp@)
            =~= Seq::<RecordModel>::empty());
        assert(records_model(out@) + Seq::<RecordModel>::empty() =~= records_model(out@));
    }
    out
}

/// Assemble the single record of a list-with-details collection: the whole
/// enriched item list wrapped back under its array key.
pub fn assemble_list_details(
    service: &str,
    region: &str,
    resource_type: &str,
    timestamp: &str,
    array_key: &str,
    items: Vec<Document>,
) -> (r: ResourceCollection)
    ensures
        r.model() == record_of(
            service@,
            region@,
            resource_type@,
            wrapped_items(array_key@, seq_model(items@)),
            timestamp@,
        ),
{
    ResourceCollection {
        service: service.to_owned(),
        region: region.to_owned(),
        resource_type: resource_type.to_owned(),
        resources: Document::singleton_object(array_key.to_owned(), Document::Array(items)),
        collected_at: timestamp.to_owned(),
    }
}

/// The ordered accumulator of output records for one whole run. Concurrent
/// orchestrations hand it their finished batches; nothing is ever
/// overwritten, deduplicated or dropped.
pub struct Aggregator {
    records: Vec<ResourceCollection>,
}

impl Aggregator {
    /// The records aggregated so far.
    pub closed spec fn model(self) -> Seq<RecordModel> {
        records_model(self.records@)
    }

    /// An empty aggregator.
    pub fn new() -> (r: Self)
        ensures
            r.model() == Seq::<RecordModel>::empty(),
    {
        let r = Aggregator { records: Vec::new() };
        proof {
            assert(r.model() =~= Seq::<RecordModel>::empty());
        }
        r
    }

    /// Append one orchestration's finished records.
    pub fn absorb(&mut self, batch: Vec<ResourceCollection>)
        ensures
            final(self).model() == old(self).model() + records_model(batch@),
    {
        let ghost pre = records_model(self.records@);
        let ghost add = records_model(batch@);
        let mut batch = batch;
        self.records.append(&mut batch);
        proof {
            assert(records_model(self.records@) =~= pre + add);
        }
    }

    /// How many records have been aggregated.
    pub fn len(&self) -> (r: usize)
        ensures
            r == self.model().len(),
    {
        self.records.len()
    }

    /// Hand the whole snapshot to the caller.
    pub fn into_records(self) -> (r: Vec<ResourceCollection>)
        ensures
            records_model(r@) == self.model(),
    {
        self.records
    }
}

/// The response oracle of a deterministic client: what it returns for each
/// operation.
pub open spec fn oracle_of(t: ResponseTable) -> spec_fn(Seq<Seq<char>>) -> Option<DocModel> {
    |op: Seq<Seq<char>>| t.response(op)
}

/// The outcome of every detail template bound to one item's identifier.
pub open spec fn detail_outcomes(
    templates: Seq<TemplateModel>,
    identifier: Seq<char>,
    region: Seq<char>,
    resp: spec_fn(Seq<Seq<char>>) -> Option<DocModel>,
) -> Seq<(Seq<char>, Option<DocModel>)> {
    templates.map_values(
        |t: TemplateModel|
            (t.field_name, resp(region_applied(template_command(t, identifier), region))),
    )
}

/// The identifier of one listed item: the text under the identifier key of
/// an object item, if there is one.
pub open spec fn item_identifier(item: DocModel, identifier_key: Seq<char>) -> Option<Seq<char>> {
    match item {
        DocModel::Object(m) => if m.contains_key(identifier_key) && m[identifier_key] is Text {
            Some(m[identifier_key]->Text_0)
        } else {
            None
        },
        _ => None,
    }
}

/// One item after enrichment: details merged in when the item names an
/// identifier, the item untouched when it does not.
pub open spec fn enrich_item(
    item: DocModel,
    identifier_key: Seq<char>,
    templates: Seq<TemplateModel>,
    region: Seq<char>,
    resp: spec_fn(Seq<Seq<char>>) -> Option<DocModel>,
) -> DocModel {
    match item_identifier(item, identifier_key) {
        Some(id) => enriched_model(item, detail_outcomes(templates, id, region, resp)),
        None => item,
    }
}

/// Every listed item after enrichment, in listing order.
pub open spec fn enriched_items(
    items: Seq<DocModel>,
    identifier_key: Seq<char>,
    templates: Seq<TemplateModel>,
    region: Seq<char>,
    resp: spec_fn(Seq<Seq<char>>) -> Option<DocModel>,
) -> Seq<DocModel> {
    Seq::new(
        items.len(),
        |i: int| enrich_item(items[i], identifier_key, templates, region, resp),
    )
}

/// The item array of a listing outcome: present exactly when the listing
/// succeeded with an object holding an array under the array key.
pub open spec fn listed_items(outcome: Option<DocModel>, array_key: Seq<char>) -> Option<
    Seq<DocModel>,
> {
    match outcome {
        Some(d) => match d {
            DocModel::Object(m) => if m.contains_key(array_key) && m[array_key] is Array {
                Some(m[array_key]->Array_0)
            } else {
                None
            },
            _ => None,
        },
        None => None,
    }
}

/// The records of one list-with-details collection: exactly one for a
/// successful listing, wrapping every enriched item; none for a failed
/// listing or a malformed response.
pub open spec fn list_enrich_records(
    service: Seq<char>,
    region: Seq<char>,
    resource_type: Seq<char>,
    list_command: Seq<Seq<char>>,
    array_key: Seq<char>,
    identifier_key: Seq<char>,
    templates: Seq<TemplateModel>,
    ts: Seq<char>,
    resp: spec_fn(Seq<Seq<char>>) -> Option<DocModel>,
) -> Seq<RecordModel> {
    match listed_items(resp(list_command), array_key) {
        Some(items) => seq![
            record_of(
                service,
                region,
                resource_type,
                wrapped_items(
                    array_key,
                    enriched_items(items, identifier_key, templates, region, resp),
                ),
                ts,
            ),
        ],
        None => Seq::empty(),
    }
}

/// The outcome of every command of a batch.
pub open spec fn batch_outcomes(
    commands: Seq<(Seq<char>, Seq<Seq<char>>)>,
    resp: spec_fn(Seq<Seq<char>>) -> Option<DocModel>,
) -> Seq<(Seq<char>, Option<DocModel>)> {
    commands.map_values(|p: (Seq<char>, Seq<Seq<char>>)| (p.0, resp(p.1)))
}

/// The records of one resource configuration.
pub open spec fn mode_records(
    service: Seq<char>,
    region: Seq<char>,
    cfg: ConfigModel,
    ts: Seq<char>,
    resp: spec_fn(Seq<Seq<char>>) -> Option<DocModel>,
) -> Seq<RecordModel> {
    match cfg.mode {
        ModeModel::Simple { command } => simple_records(
            service,
            region,
            cfg.resource_type,
            resp(command),
            ts,
        ),
        ModeModel::Batch { commands } => batch_records(
            service,
            region,
            batch_outcomes(commands, resp),
            ts,
        ),
        ModeModel::ListEnrich { list_command, array_key, identifier_key, templates, concurrency } =>
            list_enrich_records(
            service,
            region,
            cfg.resource_type,
            list_command,
            array_key,
            identifier_key,
            templates,
            ts,
            resp,
        ),
    }
}

/// The records of an ordered list of configurations, concatenated.
pub open spec fn configs_records(
    service: Seq<char>,
    region: Seq<char>,
    configs: Seq<ConfigModel>,
    ts: Seq<char>,
    resp: spec_fn(Seq<Seq<char>>) -> Option<DocModel>,
) -> Seq<RecordModel>
    decreases configs,
{
    if configs.len() == 0 {
        Seq::empty()
    } else {
        mode_records(service, region, configs[0], ts, resp) + configs_records(
            service,
            region,
            configs.subrange(1, configs.len() as int),
            ts,
            resp,
        )
    }
}

/// The records of one whole builder run: every configuration interpreted
/// against the resolved region.
pub open spec fn collection_run(
    b: BuilderModel,
    region: Seq<char>,
    ts: Seq<char>,
    resp: spec_fn(Seq<Seq<char>>) -> Option<DocModel>,
) -> Seq<RecordModel> {
    configs_records(
        b.service,
        resolved_region(b.region_mode, region),
        b.resources,
        ts,
        resp,
    )
}

/// The views of a sequence of builders.
pub open spec fn builders_model(s: Seq<CollectorBuilder>) -> Seq<BuilderModel> {
    s.map_values(|b: CollectorBuilder| b.model())
}

/// The records of a whole run: every builder's records, concatenated.
pub open spec fn collections_run(
    bs: Seq<BuilderModel>,
    region: Seq<char>,
    ts: Seq<char>,
    resp: spec_fn(Seq<Seq<char>>) -> Option<DocModel>,
) -> Seq<RecordModel>
    decreases bs,
{
    if bs.len() == 0 {
        Seq::empty()
    } else {
        collection_run(bs[0], region, ts, resp) + collections_run(
            bs.subrange(1, bs.len() as int),
            region,
            ts,
            resp,
        )
    }
}

/// Run a whole set of builders against a deterministic client, aggregating
/// every orchestration's records; no record is dropped, overwritten or
/// deduplicated.
pub fn run_collections(
    builders: &Vec<CollectorBuilder>,
    region: &str,
    timestamp: &str,
    client: &ResponseTable,
) -> (r: Vec<ResourceCollection>)
    ensures
        records_model(r@) == collections_run(
            builders_model(builders@),
            region@,
            timestamp@,
            oracle_of(*client),
        ),
{
    let ghost bs = builders_model(builders@);
    let ghost oracle = oracle_of(*client);
    let ghost total = collections_run(bs, region@, timestamp@, oracle);
    let mut agg = Aggregator::new();
    let mut i: usize = 0;
    proof {
        assert(bs.subrange(0, bs.len() as int) =~= bs);
        assert(Seq::<RecordModel>::empty() + total =~= total);
    }
    while i < builders.len()
        invariant
            i <= builders.len(),
            bs == builders_model(builders@),
            bs.len() == builders@.len(),
            oracle == oracle_of(*client),
            total == collections_run(bs, region@, timestamp@, oracle),
            agg.model() + collections_run(
                bs.subrange(i as int, bs.len() as int),
                region@,
                timestamp@,
                oracle,
            ) == total,
        decreases builders.len() - i,
    {
        let ghost suffix = bs.subrange(i as int, bs.len() as int);
        proof {
            assert(suffix[0] == bs[i as int]);
            assert(suffix.subrange(1, suffix.len() as int) =~= bs.subrange(
                i + 1,
                bs.len() as int,
            ));
        }
        let batch = run_collection_at(&builders[i], region, timestamp, client);
        let ghost agg_before = agg.model();
        let ghost batch_m = records_model(batch@);
        agg.absorb(batch);
        proof {
            assert(agg_before + batch_m + collections_run(
                bs.subrange(i + 1, bs.len() as int),
                region@,
                timestamp@,
                oracle,
            ) =~= agg_before + (batch_m + collections_run(
                bs.subrange(i + 1, bs.len() as int),
                region@,
                timestamp@,
                oracle,
            )));
        }
        i = i + 1;
    }
    proof {
        assert(bs.subrange(bs.len() as int, bs.len() as int) =~= Seq::<BuilderModel>::empty());
        assert(agg.model() + Seq::<RecordModel>::empty() =~= agg.model());
    }
    agg.into_records()
}

impl CollectorBuilder {
    /// Collect every configured resource against a deterministic client,
    /// with the builder's region policy resolved against `region`.
    pub fn collect_with_region(&self, client: &ResponseTable, region: &str) -> (r: Vec<
        ResourceCollection,
    >)
        ensures
            exists|ts: Seq<char>|
                records_model(r@) == collection_run(self.model(), region@, ts, oracle_of(*client)),
    {
        run_collection(self, region, client)
    }

    /// Collect every configured resource against a deterministic client,
    /// for a builder whose region policy does not depend on the caller's
    /// region.
    pub fn collect(&self, client: &ResponseTable) -> (r: Vec<ResourceCollection>)
        ensures
            exists|ts: Seq<char>|
                records_model(r@) == collection_run(self.model(), ""@, ts, oracle_of(*client)),
    {
        run_collection(self, "", client)
    }
}

/// How many operations of a batch succeeded.
pub open spec fn count_successes(outcomes: Seq<(Seq<char>, Option<DocModel>)>) -> int
    decreases outcomes,
{
    if outcomes.len() == 0 {
        0
    } else {
        (if outcomes[0].1 is Some {
            1int
        } else {
            0int
        }) + count_successes(outcomes.subrange(1, outcomes.len() as int))
    }
}

/// A batch of N independent operations yields exactly one record per
/// operation that succeeded — between 0 and N records, never more, whatever
/// order or interleaving the operations ran in.
pub proof fn lemma_batch_record_count(
    service: Seq<char>,
    region: Seq<char>,
    outcomes: Seq<(Seq<char>, Option<DocModel>)>,
    ts: Seq<char>,
)
    ensures
        batch_records(service, region, outcomes, ts).len() == count_successes(outcomes),
        0 <= count_successes(outcomes) <= outcomes.len(),
    decreases outcomes,
{
    if outcomes.len() > 0 {
        lemma_batch_record_count(
            service,
            region,
            outcomes.subrange(1, outcomes.len() as int),
            ts,
        );
    }
}

/// A list-with-details collection yields exactly one record per successful
/// listing — never one per item — whose wrapped array holds exactly as many
/// items as the listing produced, however many detail operations failed; a
/// failed or malformed listing yields no record at all.
pub proof fn lemma_list_enrich_shape(
    service: Seq<char>,
    region: Seq<char>,
    resource_type: Seq<char>,
    list_command: Seq<Seq<char>>,
    array_key: Seq<char>,
    identifier_key: Seq<char>,
    templates: Seq<TemplateModel>,
    ts: Seq<char>,
    resp: spec_fn(Seq<Seq<char>>) -> Option<DocModel>,
)
    ensures
        (match listed_items(resp(list_command), array_key) {
            Some(items) => {
                let rs = list_enrich_records(
                    service,
                    region,
                    resource_type,
                    list_command,
                    array_key,
                    identifier_key,
                    templates,
                    ts,
                    resp,
                );
                rs.len() == 1 && rs[0].resources == wrapped_items(
                    array_key,
                    enriched_items(items, identifier_key, templates, region, resp),
                ) && enriched_items(items, identifier_key, templates, region, resp).len()
                    == items.len()
            },
            None => list_enrich_records(
                service,
                region,
                resource_type,
                list_command,
                array_key,
                identifier_key,
                templates,
                ts,
                resp,
            ).len() == 0,
        }),
{
}

/// A plain listing whose operation fails yields no record at all; the
/// failure never propagates.
pub proof fn lemma_simple_failure_yields_nothing(
    service: Seq<char>,
    region: Seq<char>,
    resource_type: Seq<char>,
    outcome: Option<DocModel>,
    ts: Seq<char>,
)
    requires
        outcome is None,
    ensures
        simple_records(service, region, resource_type, outcome, ts).len() == 0,
{
}

/// Concatenation preserves record equality up to timestamps.
proof fn lemma_records_eq_mod_time_concat(
    a1: Seq<RecordModel>,
    a2: Seq<RecordModel>,
    b1: Seq<RecordModel>,
    b2: Seq<RecordModel>,
)
    requires
        records_eq_mod_time(a1, b1),
        records_eq_mod_time(a2, b2),
    ensures
        records_eq_mod_time(a1 + a2, b1 + b2),
{
    assert forall|i: int| 0 <= i < (a1 + a2).len() implies record_eq_mod_time(
        #[trigger] (a1 + a2)[i],
        (b1 + b2)[i],
    ) by {
        if i < a1.len() {
            assert(record_eq_mod_time(a1[i], b1[i]));
        } else {
            assert(record_eq_mod_time(a2[i - a1.len()], b2[i - a1.len()]));
        }
    }
}

/// The records of one mode differ only in their timestamps when the same
/// mode is run twice against the same responses.
proof fn lemma_mode_records_idempotent(
    service: Seq<char>,
    region: Seq<char>,
    cfg: ConfigModel,
    ts1: Seq<char>,
    ts2: Seq<char>,
    resp: spec_fn(Seq<Seq<char>>) -> Option<DocModel>,
)
    ensures
        records_eq_mod_time(
            mode_records(service, region, cfg, ts1, resp),
            mode_records(service, region, cfg, ts2, resp),
        ),
{
    match cfg.mode {
        ModeModel::Simple { command } => {},
        ModeModel::Batch { commands } => {
            lemma_batch_records_idempotent(
                service,
                region,
                batch_outcomes(commands, resp),
                ts1,
                ts2,
            );
        },
        ModeModel::ListEnrich { .. } => {},
    }
}

/// Batch records differ only in their timestamps across two runs.
proof fn lemma_batch_records_idempotent(
    service: Seq<char>,
    region: Seq<char>,
    outcomes: Seq<(Seq<char>, Option<DocModel>)>,
    ts1: Seq<char>,
    ts2: Seq<char>,
)
    ensures
        records_eq_mod_time(
            batch_records(service, region, outcomes, ts1),
            batch_records(service, region, outcomes, ts2),
        ),
    decreases outcomes,
{
    if outcomes.len() > 0 {
        lemma_batch_records_idempotent(
            service,
            region,
            outcomes.subrange(1, outcomes.len() as int),
            ts1,
            ts2,
        );
        lemma_records_eq_mod_time_concat(
            simple_records(service, region, outcomes[0].0, outcomes[0].1, ts1),
            batch_records(service, region, outcomes.subrange(1, outcomes.len() as int), ts1),
            simple_records(service, region, outcomes[0].0, outcomes[0].1, ts2),
            batch_records(service, region, outcomes.subrange(1, outcomes.len() as int), ts2),
        );
    }
}

/// The records of a configuration list differ only in their timestamps
/// across two runs.
proof fn lemma_configs_records_idempotent(
    service: Seq<char>,
    region: Seq<char>,
    configs: Seq<ConfigModel>,
    ts1: Seq<char>,
    ts2: Seq<char>,
    resp: spec_fn(Seq<Seq<char>>) -> Option<DocModel>,
)
    ensures
        records_eq_mod_time(
            configs_records(service, region, configs, ts1, resp),
            configs_records(service, region, configs, ts2, resp),
        ),
    decreases configs,
{
    if configs.len() > 0 {
        lemma_configs_records_idempotent(
            service,
            region,
            configs.subrange(1, configs.len() as int),
            ts1,
            ts2,
            resp,
        );
        lemma_mode_records_idempotent(service, region, configs[0], ts1, ts2, resp);
        lemma_records_eq_mod_time_concat(
            mode_records(service, region, configs[0], ts1, resp),
            configs_records(service, region, configs.subrange(1, configs.len() as int), ts1, resp),
            mode_records(service, region, configs[0], ts2, resp),
            configs_records(service, region, configs.subrange(1, configs.len() as int), ts2, resp),
        );
    }
}

/// Running the same configuration twice against a client that returns the
/// same documents produces the same records, up to their timestamps.
pub proof fn lemma_run_idempotent(
    b: BuilderModel,
    region: Seq<char>,
    ts1: Seq<char>,
    ts2: Seq<char>,
    resp: spec_fn(Seq<Seq<char>>) -> Option<DocModel>,
)
    ensures
        records_eq_mod_time(
            collection_run(b, region, ts1, resp),
            collection_run(b, region, ts2, resp),
        ),
{
    lemma_configs_records_idempotent(
        b.service,
        resolved_region(b.region_mode, region),
        b.resources,
        ts1,
        ts2,
        resp,
    );
}

/// Whether every detail template names a distinct field.
pub open spec fn distinct_template_fields(ts: Seq<TemplateModel>) -> bool {
    forall|i: int, j: int|
        0 <= i < j < ts.len() ==> (#[trigger] ts[i]).field_name != (#[trigger] ts[j]).field_name
}

/// Permuting the detail templates of an enrichment produces the same merged
/// item: fields are inserted by name, and no template's result depends on
/// another's.
pub proof fn lemma_enrich_order_independent(
    item: DocModel,
    identifier_key: Seq<char>,
    t1: Seq<TemplateModel>,
    t2: Seq<TemplateModel>,
    region: Seq<char>,
    resp: spec_fn(Seq<Seq<char>>) -> Option<DocModel>,
)
    requires
        distinct_template_fields(t1),
        t2.to_multiset() == t1.to_multiset(),
    ensures
        enrich_item(item, identifier_key, t1, region, resp) == enrich_item(
            item,
            identifier_key,
            t2,
            region,
            resp,
        ),
{
    match item_identifier(item, identifier_key) {
        Some(id) => {
            let f = |t: TemplateModel|
                (t.field_name, resp(region_applied(template_command(t, id), region)));
            let outs1 = detail_outcomes(t1, id, region, resp);
            let outs2 = detail_outcomes(t2, id, region, resp);
            assert(outs1 =~= t1.map_values(f));
            assert(outs2 =~= t2.map_values(f));
            crate::parallel::lemma_map_values_multiset(t1, t2, f);
            assert forall|i: int, j: int| 0 <= i < j < outs1.len()
                implies (#[trigger] outs1[i]).0 != (#[trigger] outs1[j]).0 by {
                assert(outs1[i].0 == t1[i].field_name && outs1[j].0 == t1[j].field_name);
            }
            match item {
                DocModel::Object(m) => {
                    crate::parallel::lemma_applied_fields_order_independent(m, outs1, outs2);
                },
                _ => {},
            }
        },
        None => {},
    }
}

/// How a document's field lookup shows up in `item_identifier`.
proof fn lemma_item_identifier(item: Document, k: Seq<char>)
    ensures
        item_identifier(item.model(), k) == (match item.field(k) {
            Some(m) => if m is Text {
                Some(m->Text_0)
            } else {
                None::<Seq<char>>
            },
            None => None::<Seq<char>>,
        }),
{
    crate::parallel::lemma_model_object(item);
}

/// How a document's field lookup shows up in `listed_items`.
proof fn lemma_listed_items(doc: Document, k: Seq<char>)
    ensures
        listed_items(Some(doc.model()), k) == (match doc.field(k) {
            Some(m) => if m is Array {
                Some(m->Array_0)
            } else {
                None::<Seq<DocModel>>
            },
            None => None::<Seq<DocModel>>,
        }),
{
    crate::parallel::lemma_model_object(doc);
}

/// Enrich one listed item: bind every template to the item's identifier,
/// perform the detail operations, and merge the successful results. An item
/// without an identifier passes through untouched.
pub fn enrich_one_item(
    item: Document,
    identifier_key: &str,
    templates: &Vec<DetailTemplate>,
    region: &str,
    client: &ResponseTable,
) -> (r: Document)
    ensures
        r.model() == enrich_item(
            item.model(),
            identifier_key@,
            templates_model(templates@),
            region@,
            oracle_of(*client),
        ),
{
    proof {
        lemma_item_identifier(item, identifier_key@);
    }
    match extract_string(&item, identifier_key) {
        Some(id) => {
            let ghost tm = templates_model(templates@);
            let ghost oracle = oracle_of(*client);
            let ghost douts = detail_outcomes(tm, id@, region@, oracle);
            let configs = detail_operations(templates, id.as_str());
            let mut outcomes: Vec<(String, Option<Document>)> = Vec::new();
            let mut i: usize = 0;
            proof {
                assert(outcomes_model(outcomes@) =~= douts.subrange(0, 0));
            }
            while i < configs.len()
                invariant
                    i <= configs.len(),
                    configs@.len() == templates@.len(),
                    tm == templates_model(templates@),
                    oracle == oracle_of(*client),
                    douts == detail_outcomes(tm, id@, region@, oracle),
                    douts.len() == tm.len(),
                    forall|j: int| 0 <= j < configs@.len() ==> (#[trigger] configs@[j]).model()
                        == (crate::parallel::DetailConfigModel {
                        field_name: templates@[j].model().field_name,
                        command: template_command(templates@[j].model(), id@),
                        ignore_errors: true,
                    }),
                    outcomes_model(outcomes@) == douts.subrange(0, i as int),
                decreases configs.len() - i,
            {
                let cmd = with_region(copy_strings(&configs[i].command), region);
                let outcome = client.perform(&cmd);
                proof {
                    assert(string_views(cmd@) == region_applied(
                        template_command(tm[i as int], id@),
                        region@,
                    ));
                    assert(opt_model(outcome) == oracle(string_views(cmd@)));
                    assert(douts[i as int] == (tm[i as int].field_name, oracle(
                        region_applied(template_command(tm[i as int], id@), region@),
                    )));
                }
                let ghost outs_before = outcomes_model(outcomes@);
                outcomes.push((configs[i].field_name.clone(), outcome));
                proof {
                    assert(outcomes_model(outcomes@) =~= outs_before.push(
                        (tm[i as int].field_name, opt_model(outcome)),
                    ));
                    assert(outcomes_model(outcomes@) =~= douts.subrange(0, i + 1));
                }
                i = i + 1;
            }
            proof {
                assert(douts.subrange(0, douts.len() as int) =~= douts);
            }
            apply_detail_results(item, &outcomes)
        },
        None => item,
    }
}

/// Run one list-with-details collection against a deterministic client.
fn run_list_enrich(
    service: &str,
    region: &str,
    resource_type: &str,
    timestamp: &str,
    list_command: &Vec<String>,
    array_key: &str,
    identifier_key: &str,
    templates: &Vec<DetailTemplate>,
    client: &ResponseTable,
) -> (r: Vec<ResourceCollection>)
    ensures
        records_model(r@) == list_enrich_records(
            service@,
            region@,
            resource_type@,
            string_views(list_command@),
            array_key@,
            identifier_key@,
            templates_model(templates@),
            timestamp@,
            oracle_of(*client),
        ),
{
    let ghost oracle = oracle_of(*client);
    let ghost tm = templates_model(templates@);
    let listed = client.perform(list_command);
    match listed {
        Some(doc) => {
            proof {
                lemma_listed_items(doc, array_key@);
            }
            match extract_array(&doc, array_key) {
                Some(items) => {
                    let ghost all = seq_model(items@);
                    proof {
                        crate::document::lemma_seq_model(items@);
                        assert(listed_items(oracle(string_views(list_command@)), array_key@)
                            == Some(all));
                    }
                    let mut rest = items;
                    let mut enriched: Vec<Document> = Vec::new();
                    while rest.len() > 0
                        invariant
                            tm == templates_model(templates@),
                            oracle == oracle_of(*client),
                            enriched@.len() + rest@.len() == all.len(),
                            forall|j: int| 0 <= j < rest@.len() ==> (#[trigger] rest@[j]).model()
                                == all[enriched@.len() + j],
                            forall|j: int| 0 <= j < enriched@.len()
                                ==> (#[trigger] enriched@[j]).model() == enrich_item(
                                all[j],
                                identifier_key@,
                                tm,
                                region@,
                                oracle,
                            ),
                        decreases rest.len(),
                    {
                        let item = rest.remove(0);
                        let e = enrich_one_item(item, identifier_key, templates, region, client);
                        enriched.push(e);
                    }
                    let ghost emodels = seq_model(enriched@);
                    proof {
                        crate::document::lemma_seq_model(enriched@);
                        assert(emodels =~= enriched_items(
                            all,
                            identifier_key@,
                            tm,
                            region@,
                            oracle,
                        ));
                    }
                    let record = assemble_list_details(
                        service,
                        region,
                        resource_type,
                        timestamp,
                        array_key,
                        enriched,
                    );
                    let mut out: Vec<ResourceCollection> = Vec::new();
                    out.push(record);
                    proof {
                        assert(records_model(out@) =~= seq![record.model()]);
                    }
                    out
                },
                None => {
                    let out: Vec<ResourceCollection> = Vec::new();
                    proof {
                        assert(records_model(out@) =~= Seq::<RecordModel>::empty());
                    }
                    out
                },
            }
        },
        None => {
            let out: Vec<ResourceCollection> = Vec::new();
            proof {
                assert(records_model(out@) =~= Seq::<RecordModel>::empty());
            }
            out
        },
    }
}

/// Run one resource configuration against a deterministic client.
pub fn run_mode(
    service: &str,
    region: &str,
    cfg: &ResourceConfig,
    timestamp: &str,
    client: &ResponseTable,
) -> (r: Vec<ResourceCollection>)
    ensures
        records_model(r@) == mode_records(
            service@,
            region@,
            cfg.model(),
            timestamp@,
            oracle_of(*client),
        ),
{
    match &cfg.mode {
        CollectionMode::SimpleList { command } => {
            let outcome = client.perform(command);
            proof {
                assert(opt_model(outcome) == oracle_of(*client)(string_views(command@)));
            }
            assemble_simple_list(service, region, cfg.resource_type.as_str(), timestamp, outcome)
        },
        CollectionMode::BatchCommands { commands } => {
            let ghost bouts = batch_outcomes(
                commands@.map_values(|p: (String, Vec<String>)| (p.0@, string_views(p.1@))),
                oracle_of(*client),
            );
            let mut outcomes: Vec<(String, Option<Document>)> = Vec::new();
            let mut i: usize = 0;
            proof {
                assert(outcomes_model(outcomes@) =~= bouts.subrange(0, 0));
            }
            while i < commands.len()
                invariant
                    i <= commands.len(),
                    bouts == batch_outcomes(
                        commands@.map_values(
                            |p: (String, Vec<String>)| (p.0@, string_views(p.1@)),
                        ),
                        oracle_of(*client),
                    ),
                    bouts.len() == commands@.len(),
                    outcomes_model(outcomes@) == bouts.subrange(0, i as int),
                decreases commands.len() - i,
            {
                let outcome = client.perform(&commands[i].1);
                proof {
                    assert(opt_model(outcome) == oracle_of(*client)(
                        string_views(commands@[i as int].1@),
                    ));
                    assert(bouts[i as int] == (commands@[i as int].0@, oracle_of(*client)(
                        string_views(commands@[i as int].1@),
                    )));
                }
                let ghost outs_before = outcomes_model(outcomes@);
                outcomes.push((commands[i].0.clone(), outcome));
                proof {
                    assert(outcomes_model(outcomes@) =~= outs_before.push(
                        (commands@[i as int].0@, opt_model(outcome)),
                    ));
                    assert(outcomes_model(outcomes@) =~= bouts.subrange(0, i + 1));
                }
                i = i + 1;
            }
            proof {
                assert(bouts.subrange(0, bouts.len() as int) =~= bouts);
            }
            assemble_batch(service, region, timestamp, outcomes)
        },
        CollectionMode::ListWithDetails {
            list_command,
            array_key,
            identifier_key,
            detail_templates,
            concurrency,
        } => run_list_enrich(
            service,
            region,
            cfg.resource_type.as_str(),
            timestamp,
            list_command,
            array_key.as_str(),
            identifier_key.as_str(),
            detail_templates,
            client,
        ),
    }
}

/// Run one whole builder against a deterministic client, stamping every
/// record with the given timestamp.
pub fn run_collection_at(
    builder: &CollectorBuilder,
    region: &str,
    timestamp: &str,
    client: &ResponseTable,
) -> (r: Vec<ResourceCollection>)
    ensures
        records_model(r@) == collection_run(
            builder.model(),
            region@,
            timestamp@,
            oracle_of(*client),
        ),
{
    let ghost oracle = oracle_of(*client);
    let actual_region = resolve_region(builder.region_mode(), region);
    let configs = builder.resources();
    let ghost all = configs_model(configs@);
    let ghost resolved = resolved_region(builder.model().region_mode, region@);
    let service = builder.service();
    let mut out: Vec<ResourceCollection> = Vec::new();
    let mut i: usize = 0;
    proof {
        assert(records_model(out@) =~= Seq::<RecordModel>::empty());
        assert(all.subrange(0, all.len() as int) =~= all);
        assert(Seq::<RecordModel>::empty() + configs_records(
            service@,
            resolved,
            all,
            timestamp@,
            oracle,
        ) =~= configs_records(service@, resolved, all, timestamp@, oracle));
    }
    while i < configs.len()
        invariant
            i <= configs.len(),
            oracle == oracle_of(*client),
            all == configs_model(configs@),
            all.len() == configs@.len(),
            actual_region@ == resolved,
            service@ == builder.model().service,
            records_model(out@) + configs_records(
                service@,
                resolved,
                all.subrange(i as int, all.len() as int),
                timestamp@,
                oracle,
            ) == configs_records(service@, resolved, all, timestamp@, oracle),
        decreases configs.len() - i,
    {
        let recs = run_mode(
            service.as_str(),
            actual_region.as_str(),
            &configs[i],
            timestamp,
            client,
        );
        let ghost out_before = records_model(out@);
        let ghost recs_m = records_model(recs@);
        let mut recs = recs;
        out.append(&mut recs);
        proof {
            assert(records_model(out@) =~= out_before + recs_m);
            let suffix = all.subrange(i as int, all.len() as int);
            assert(suffix.subrange(1, suffix.len() as int) =~= all.subrange(
                i + 1,
                all.len() as int,
            ));
            assert(suffix[0] == all[i as int]);
            assert(out_before + recs_m + configs_records(
                service@,
                resolved,
                all.subrange(i + 1, all.len() as int),
                timestamp@,
                oracle,
            ) =~= out_before + (recs_m + configs_records(
                service@,
                resolved,
                all.subrange(i + 1, all.len() as int),
                timestamp@,
                oracle,
            )));
        }
        i = i + 1;
    }
    proof {
        assert(all.subrange(all.len() as int, all.len() as int)
            =~= Seq::<ConfigModel>::empty());
        assert(records_model(out@) + Seq::<RecordModel>::empty() =~= records_model(out@));
    }
    out
}

/// Run one whole builder against a deterministic client, stamping every
/// record with the time of the call.
pub fn run_collection(
    builder: &CollectorBuilder,
    region: &str,
    client: &ResponseTable,
) -> (r: Vec<ResourceCollection>)
    ensures
        exists|ts: Seq<char>|
            records_model(r@) == collection_run(
                builder.model(),
                region@,
                ts,
                oracle_of(*client),
            ),
{
    let ts = crate::clock::current_timestamp();
    let out = run_collection_at(builder, region, ts.as_str(), client);
    proof {
        assert(records_model(out@) == collection_run(
            builder.model(),
            region@,
            ts@,
            oracle_of(*client),
        ));
    }
    out
}

} // verus!
