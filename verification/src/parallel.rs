//! Pure steps of detail enrichment: building per-item detail operations,
//! appending the region argument, merging detail results into a base record,
//! and the helpers that read arrays and strings out of documents.

use crate::collector_builder::{DetailTemplate, TemplateModel};
use crate::document::{copy_documents, seq_model, DocModel, Document};
use crate::strings::{contains_arg, string_views, vec_contains_str};
use vstd::prelude::*;

verus! {

/// Configuration for fetching one detail field of one resource.
#[derive(Debug, Clone)]
pub struct DetailConfig {
    /// Name of the field to insert into the result.
    pub field_name: String,
    /// Arguments of the remote operation.
    pub command: Vec<String>,
    /// Whether a failure of this operation is tolerated (it always is: a
    /// failed detail fetch merely leaves the field unset).
    pub ignore_errors: bool,
}

/// The mathematical view of a detail configuration.
#[verifier::ext_equal]
pub struct DetailConfigModel {
    pub field_name: Seq<char>,
    pub command: Seq<Seq<char>>,
    pub ignore_errors: bool,
}

impl DetailConfig {
    /// The mathematical view of this configuration.
    pub open spec fn model(self) -> DetailConfigModel {
        DetailConfigModel {
            field_name: self.field_name@,
            command: string_views(self.command@),
            ignore_errors: self.ignore_errors,
        }
    }

    /// A detail configuration with the default error handling: errors are
    /// ignored, the field is simply left unset.
    pub fn new(field_name: &str, command: Vec<String>) -> (r: Self)
        ensures
            r.model() == (DetailConfigModel {
                field_name: field_name@,
                command: string_views(command@),
                ignore_errors: true,
            }),
    {
        DetailConfig { field_name: field_name.to_owned(), command, ignore_errors: true }
    }
}

/// The operation a template describes for one item's identifier.
pub open spec fn template_command(t: TemplateModel, identifier: Seq<char>) -> Seq<Seq<char>> {
    seq![t.service, t.operation, t.param_name, identifier]
}

/// Build the detail configuration for one resource-specific operation.
pub fn build_detail_config(
    field_name: &str,
    service: &str,
    operation: &str,
    resource_param: &str,
    resource_value: &str,
) -> (r: DetailConfig)
    ensures
        r.model() == (DetailConfigModel {
            field_name: field_name@,
            command: seq![service@, operation@, resource_param@, resource_value@],
            ignore_errors: true,
        }),
{
    let mut command: Vec<String> = Vec::new();
    command.push(service.to_owned());
    command.push(operation.to_owned());
    command.push(resource_param.to_owned());
    command.push(resource_value.to_owned());
    proof {
        assert(string_views(command@) =~= seq![service@, operation@, resource_param@,
            resource_value@]);
    }
    DetailConfig::new(field_name, command)
}

/// Bind each template to an item's identifier, in template order.
pub fn detail_operations(templates: &Vec<DetailTemplate>, identifier: &str) -> (r: Vec<
    DetailConfig,
>)
    ensures
        r@.len() == templates@.len(),
        forall|i: int| 0 <= i < r@.len() ==> (#[trigger] r@[i]).model() == (DetailConfigModel {
            field_name: templates@[i].model().field_name,
            command: template_command(templates@[i].model(), identifier@),
            ignore_errors: true,
        }),
{
    let mut out: Vec<DetailConfig> = Vec::new();
    let mut i: usize = 0;
    while i < templates.len()
        invariant
            i <= templates.len(),
            out@.len() == i,
            forall|j: int| 0 <= j < i ==> (#[trigger] out@[j]).model() == (DetailConfigModel {
                field_name: templates@[j].model().field_name,
                command: template_command(templates@[j].model(), identifier@),
                ignore_errors: true,
            }),
        decreases templates.len() - i,
    {
        let t = &templates[i];
        let cfg = build_detail_config(
            t.field_name.as_str(),
            t.service.as_str(),
            t.operation.as_str(),
            t.param_name.as_str(),
            identifier,
        );
        out.push(cfg);
        i = i + 1;
    }
    out
}

/// A command with the region argument appended, unless it already names one.
pub open spec fn region_applied(command: Seq<Seq<char>>, region: Seq<char>) -> Seq<Seq<char>> {
    if contains_arg(command, "--region"@) {
        command
    } else {
        command.push("--region"@).push(region)
    }
}

/// Append `--region <region>` to a command that does not already carry it.
pub fn with_region(command: Vec<String>, region: &str) -> (r: Vec<String>)
    ensures
        string_views(r@) == region_applied(string_views(command@), region@),
{
    let ghost pre = string_views(command@);
    let mut args = command;
    if !vec_contains_str(&args, "--region") {
        args.push("--region".to_owned());
        args.push(region.to_owned());
        proof {
            assert(string_views(args@) =~= pre.push("--region"@).push(region@));
        }
    }
    args
}

/// The outcomes of a batch of detail operations: field name and, when the
/// operation succeeded, its document.
pub open spec fn outcomes_model(s: Seq<(String, Option<Document>)>) -> Seq<
    (Seq<char>, Option<DocModel>),
> {
    s.map_values(
        |p: (String, Option<Document>)|
            (
                p.0@,
                match p.1 {
                    Some(d) => Some(d.model()),
                    None => None,
                },
            ),
    )
}

/// Fold a batch of detail outcomes into an object's field map: each success
/// sets its field, each failure changes nothing.
pub open spec fn applied_fields(
    m: Map<Seq<char>, DocModel>,
    rs: Seq<(Seq<char>, Option<DocModel>)>,
) -> Map<Seq<char>, DocModel>
    decreases rs,
{
    if rs.len() == 0 {
        m
    } else {
        let prev = applied_fields(m, rs.subrange(0, rs.len() - 1));
        match rs[rs.len() - 1].1 {
            Some(d) => prev.insert(rs[rs.len() - 1].0, d),
            None => prev,
        }
    }
}

/// A base record enriched by a batch of detail outcomes. A base that is not
/// an object passes through unchanged.
pub open spec fn enriched_model(
    base: DocModel,
    rs: Seq<(Seq<char>, Option<DocModel>)>,
) -> DocModel {
    match base {
        DocModel::Object(m) => DocModel::Object(applied_fields(m, rs)),
        _ => base,
    }
}

/// A document is an object exactly when its model is.
pub proof fn lemma_model_object(d: Document)
    ensures
        d.model() is Object <==> d.is_object(),
        d.is_object() ==> d.model() == DocModel::Object(d.obj()),
{
    match d {
        Document::Null => {},
        Document::Bool(_) => {},
        Document::Int(_) => {},
        Document::Text(_) => {},
        Document::Array(_) => {},
        Document::Object(_) => {},
    }
}

/// Merge detail outcomes into a base record: successful fetches set their
/// field, failed ones leave the record as it was.
pub fn apply_detail_results(
    base: Document,
    results: &Vec<(String, Option<Document>)>,
) -> (r: Document)
    ensures
        r.model() == enriched_model(base.model(), outcomes_model(results@)),
{
    let ghost base_m = base.model();
    let ghost all = outcomes_model(results@);
    let mut acc = base;
    let mut i: usize = 0;
    proof {
        assert(all.subrange(0, 0) =~= Seq::<(Seq<char>, Option<DocModel>)>::empty());
        lemma_model_object(acc);
    }
    while i < results.len()
        invariant
            i <= results.len(),
            all == outcomes_model(results@),
            all.len() == results@.len(),
            base_m == base.model(),
            acc.model() == enriched_model(base_m, all.subrange(0, i as int)),
        decreases results.len() - i,
    {
        proof {
            assert(all.subrange(0, i + 1).subrange(0, i as int) =~= all.subrange(0, i as int));
            assert(all[i as int] == (results@[i as int].0@, match results@[i as int].1 {
                Some(d) => Some(d.model()),
                None => None::<DocModel>,
            }));
            lemma_model_object(acc);
        }
        match &results[i].1 {
            Some(d) => {
                acc = acc.insert_field(results[i].0.clone(), d.deep_copy());
            },
            None => {},
        }
        i = i + 1;
    }
    proof {
        assert(all.subrange(0, all.len() as int) =~= all);
    }
    acc
}

/// Whether the batch holds a successful outcome for field name `k`.
pub open spec fn has_success(rs: Seq<(Seq<char>, Option<DocModel>)>, k: Seq<char>) -> bool {
    exists|i: int| 0 <= i < rs.len() && (#[trigger] rs[i]).0 == k && rs[i].1 is Some
}

/// Whether every outcome of the batch carries a distinct field name.
pub open spec fn distinct_names(rs: Seq<(Seq<char>, Option<DocModel>)>) -> bool {
    forall|i: int, j: int| 0 <= i < j < rs.len() ==> (#[trigger] rs[i]).0 != (#[trigger] rs[j]).0
}

/// What the folded field map holds, entry by entry, when every outcome
/// carries a distinct field name: each success sets its own field, and every
/// other field keeps its base value.
proof fn lemma_applied_fields_char(
    m: Map<Seq<char>, DocModel>,
    rs: Seq<(Seq<char>, Option<DocModel>)>,
)
    requires
        distinct_names(rs),
    ensures
        forall|k: Seq<char>| #[trigger]
            applied_fields(m, rs).contains_key(k) <==> (m.contains_key(k) || has_success(rs, k)),
        forall|i: int| 0 <= i < rs.len() && (#[trigger] rs[i]).1 is Some ==> applied_fields(
            m,
            rs,
        ).contains_key(rs[i].0) && applied_fields(m, rs)[rs[i].0] == rs[i].1->Some_0,
        forall|k: Seq<char>| !has_success(rs, k) && m.contains_key(k) ==> #[trigger] applied_fields(
            m,
            rs,
        )[k] == m[k],
    decreases rs,
{
    if rs.len() > 0 {
        let pre = rs.subrange(0, rs.len() - 1);
        let last = rs[rs.len() - 1];
        let applied = applied_fields(m, rs);
        let prev = applied_fields(m, pre);
        assert(applied == (match last.1 {
            Some(d) => prev.insert(last.0, d),
            None => prev,
        }));
        assert forall|i: int, j: int| 0 <= i < j < pre.len() implies (#[trigger] pre[i]).0
            != (#[trigger] pre[j]).0 by {
            assert(pre[i] == rs[i] && pre[j] == rs[j]);
        }
        lemma_applied_fields_char(m, pre);
        assert forall|k: Seq<char>| has_success(pre, k) implies has_success(rs, k) by {
            let i = choose|i: int| 0 <= i < pre.len() && (#[trigger] pre[i]).0 == k && pre[i].1
                is Some;
            assert(rs[i].0 == k && rs[i].1 is Some);
        }
        assert forall|k: Seq<char>| has_success(rs, k) && !(last.0 == k && last.1
            is Some) implies has_success(pre, k) by {
            let i = choose|i: int| 0 <= i < rs.len() && (#[trigger] rs[i]).0 == k && rs[i].1
                is Some;
            assert(i < rs.len() - 1);
            assert(pre[i].0 == k && pre[i].1 is Some);
        }
        assert forall|k: Seq<char>| #[trigger] applied.contains_key(k) <==> (m.contains_key(k)
            || has_success(rs, k)) by {
            assert(prev.contains_key(k) <==> (m.contains_key(k) || has_success(pre, k)));
            if last.1 is Some && k == last.0 {
                assert(rs[rs.len() - 1].0 == k && rs[rs.len() - 1].1 is Some);
                assert(has_success(rs, k));
            }
        }
        assert forall|i: int| 0 <= i < rs.len() && (#[trigger] rs[i]).1 is Some implies
            applied.contains_key(rs[i].0) && applied[rs[i].0] == rs[i].1->Some_0 by {
            if i < rs.len() - 1 {
                assert(pre[i] == rs[i]);
                assert(prev.contains_key(rs[i].0) && prev[rs[i].0] == rs[i].1->Some_0);
                assert(rs[i].0 != last.0);
            }
        }
        assert forall|k: Seq<char>| !has_success(rs, k) && m.contains_key(k) implies #[trigger]
            applied[k] == m[k] by {
            assert(!has_success(pre, k));
            assert(prev[k] == m[k]);
            if last.1 is Some {
                assert(!(last.0 == k && last.1 is Some));
                assert(k != last.0);
            }
        }
    }
}

/// Two sequences with the same multiset have, after mapping, the same
/// multiset again.
pub proof fn lemma_map_values_multiset<A, B>(s1: Seq<A>, s2: Seq<A>, f: spec_fn(A) -> B)
    requires
        s2.to_multiset() == s1.to_multiset(),
    ensures
        s2.map_values(f).to_multiset() == s1.map_values(f).to_multiset(),
    decreases s1,
{
    broadcast use vstd::seq_lib::group_to_multiset_ensures;

    if s1.len() == 0 {
        assert(s1.to_multiset().len() == s1.len());
        assert(s2.to_multiset().len() == s2.len());
        assert(s2.len() == 0);
        assert(s2.map_values(f) =~= s1.map_values(f));
    } else {
        let p = s1[0];
        assert(s1.contains(p));
        assert(s1.to_multiset().count(p) > 0);
        assert(s2.to_multiset().count(p) > 0);
        assert(s2.contains(p));
        let j = choose|j: int| 0 <= j < s2.len() && s2[j] == p;
        assert(s1.remove(0).to_multiset() =~= s1.to_multiset().remove(p));
        assert(s2.remove(j).to_multiset() =~= s2.to_multiset().remove(p));
        lemma_map_values_multiset(s1.remove(0), s2.remove(j), f);
        let m1 = s1.map_values(f).to_multiset();
        let m2 = s2.map_values(f).to_multiset();
        assert(s1.map_values(f).remove(0) =~= s1.remove(0).map_values(f));
        assert(s2.map_values(f).remove(j) =~= s2.remove(j).map_values(f));
        assert(s1.map_values(f)[0] == f(p));
        assert(s2.map_values(f)[j] == f(p));
        assert(s1.map_values(f).remove(0).to_multiset() =~= m1.remove(f(p)));
        assert(s2.map_values(f).remove(j).to_multiset() =~= m2.remove(f(p)));
        assert(m1.remove(f(p)) =~= m2.remove(f(p)));
        assert(s1.map_values(f).contains(f(p)));
        assert(s2.map_values(f).contains(f(p)));
        assert(m1.count(f(p)) > 0);
        assert(m2.count(f(p)) > 0);
        assert forall|y: B| m1.count(y) == m2.count(y) by {
            if y == f(p) {
                assert(m1.remove(f(p)).count(y) == m2.remove(f(p)).count(y));
            } else {
                assert(m1.remove(f(p)).count(y) == m2.remove(f(p)).count(y));
            }
        }
        assert(m1 =~= m2);
    }
}

/// A sequence with the same multiset as one whose field names are distinct
/// has distinct field names itself.
proof fn lemma_distinct_names_transfer(
    rs1: Seq<(Seq<char>, Option<DocModel>)>,
    rs2: Seq<(Seq<char>, Option<DocModel>)>,
)
    requires
        distinct_names(rs1),
        rs2.to_multiset() == rs1.to_multiset(),
    ensures
        distinct_names(rs2),
{
    broadcast use vstd::seq_lib::group_to_multiset_ensures;

    assert forall|i: int, j: int| 0 <= i < j < rs2.len() implies (#[trigger] rs2[i]).0
        != (#[trigger] rs2[j]).0 by {
        let p = rs2[i];
        let q = rs2[j];
        if p.0 == q.0 {
            if p == q {
                assert(rs2.remove(j).to_multiset() =~= rs2.to_multiset().remove(p));
                assert(rs2.remove(j)[i] == p);
                assert(rs2.remove(j).contains(p));
                assert(rs2.to_multiset().remove(p).count(p) > 0);
                assert(rs1.to_multiset().count(p) >= 2);
                assert(rs1.contains(p));
                let a = choose|a: int| 0 <= a < rs1.len() && rs1[a] == p;
                assert(rs1.remove(a).to_multiset() =~= rs1.to_multiset().remove(p));
                assert(rs1.remove(a).to_multiset().count(p) > 0);
                assert(rs1.remove(a).contains(p));
                let c = choose|c: int| 0 <= c < rs1.remove(a).len() && rs1.remove(a)[c] == p;
                if c < a {
                    assert(rs1[c] == p);
                } else {
                    assert(rs1[c + 1] == p);
                }
            } else {
                assert(rs1.to_multiset().count(p) > 0);
                assert(rs1.to_multiset().count(q) > 0);
                assert(rs1.contains(p));
                assert(rs1.contains(q));
                let a = choose|a: int| 0 <= a < rs1.len() && rs1[a] == p;
                let b = choose|b: int| 0 <= b < rs1.len() && rs1[b] == q;
                assert(a != b);
            }
        }
    }
}

/// Reordering a batch of detail outcomes with distinct field names does not
/// change the folded field map: fields are set by name, with no dependency
/// between outcomes.
pub proof fn lemma_applied_fields_order_independent(
    m: Map<Seq<char>, DocModel>,
    rs1: Seq<(Seq<char>, Option<DocModel>)>,
    rs2: Seq<(Seq<char>, Option<DocModel>)>,
)
    requires
        distinct_names(rs1),
        rs2.to_multiset() == rs1.to_multiset(),
    ensures
        applied_fields(m, rs1) == applied_fields(m, rs2),
{
    broadcast use vstd::seq_lib::group_to_multiset_ensures;

    lemma_distinct_names_transfer(rs1, rs2);
    lemma_applied_fields_char(m, rs1);
    lemma_applied_fields_char(m, rs2);
    assert forall|k: Seq<char>| has_success(rs1, k) implies has_success(rs2, k) by {
        let i = choose|i: int| 0 <= i < rs1.len() && (#[trigger] rs1[i]).0 == k && rs1[i].1
            is Some;
        assert(rs1.contains(rs1[i]));
        assert(rs2.to_multiset().count(rs1[i]) > 0);
        assert(rs2.contains(rs1[i]));
        let j = choose|j: int| 0 <= j < rs2.len() && rs2[j] == rs1[i];
        assert(rs2[j].0 == k && rs2[j].1 is Some);
    }
    assert forall|k: Seq<char>| has_success(rs2, k) implies has_success(rs1, k) by {
        let i = choose|i: int| 0 <= i < rs2.len() && (#[trigger] rs2[i]).0 == k && rs2[i].1
            is Some;
        assert(rs2.contains(rs2[i]));
        assert(rs1.to_multiset().count(rs2[i]) > 0);
        assert(rs1.contains(rs2[i]));
        let j = choose|j: int| 0 <= j < rs1.len() && rs1[j] == rs2[i];
        assert(rs1[j].0 == k && rs1[j].1 is Some);
    }
    assert forall|k: Seq<char>|
        #[trigger] applied_fields(m, rs1).contains_key(k) == applied_fields(
        m,
        rs2,
    ).contains_key(k) && (applied_fields(m, rs1).contains_key(k) ==> applied_fields(m, rs1)[k]
        == applied_fields(m, rs2)[k]) by {
        if has_success(rs1, k) {
            let i = choose|i: int| 0 <= i < rs1.len() && (#[trigger] rs1[i]).0 == k && rs1[i].1
                is Some;
            assert(rs1.contains(rs1[i]));
            assert(rs2.to_multiset().count(rs1[i]) > 0);
            assert(rs2.contains(rs1[i]));
            let j = choose|j: int| 0 <= j < rs2.len() && rs2[j] == rs1[i];
            assert(applied_fields(m, rs1)[k] == rs1[i].1->Some_0);
            assert(applied_fields(m, rs2)[rs2[j].0] == rs2[j].1->Some_0);
        }
    }
    assert(applied_fields(m, rs1) =~= applied_fields(m, rs2));
}

/// Extract the array under `key`, as fresh copies of its elements.
pub fn extract_array(response: &Document, key: &str) -> (r: Option<Vec<Document>>)
    ensures
        match r {
            Some(v) => response.field(key@) == Some(DocModel::Array(seq_model(v@))),
            None => !(response.field(key@) matches Some(m) && m is Array),
        },
{
    match response.get(key) {
        Some(Document::Array(items)) => Some(copy_documents(items)),
        Some(other) => {
            proof {
                lemma_model_not_array(*other);
            }
            None
        },
        None => None,
    }
}

/// A document that is not an array has no array model.
proof fn lemma_model_not_array(d: Document)
    requires
        !(d matches Document::Array(_)),
    ensures
        !(d.model() is Array),
{
    match d {
        Document::Null => {},
        Document::Bool(_) => {},
        Document::Int(_) => {},
        Document::Text(_) => {},
        Document::Array(_) => {},
        Document::Object(_) => {},
    }
}

/// A document that is not a text scalar has no text model.
proof fn lemma_model_not_text(d: Document)
    requires
        !(d matches Document::Text(_)),
    ensures
        !(d.model() is Text),
{
    match d {
        Document::Null => {},
        Document::Bool(_) => {},
        Document::Int(_) => {},
        Document::Text(_) => {},
        Document::Array(_) => {},
        Document::Object(_) => {},
    }
}

/// Extract the text under `key` as an owned string.
pub fn extract_string(value: &Document, key: &str) -> (r: Option<String>)
    ensures
        match r {
            Some(s) => value.field(key@) == Some(DocModel::Text(s@)),
            None => !(value.field(key@) matches Some(m) && m is Text),
        },
{
    match value.get(key) {
        Some(Document::Text(s)) => Some(s.clone()),
        Some(other) => {
            proof {
                lemma_model_not_text(*other);
            }
            None
        },
        None => None,
    }
}

} // verus!
