//! Output assembly: grouping a run's records so that each service gets one
//! combined document per region, keyed by resource type.

use crate::document::{DocModel, Document};
use crate::models::{records_model, RecordModel, ResourceCollection};
use vstd::prelude::*;

verus! {

/// One output file's worth of records: everything one service produced in
/// one region, keyed by resource type.
#[derive(Debug, PartialEq)]
pub struct CombinedCollection {
    pub service: String,
    pub region: String,
    pub resources: Document,
    pub collected_at: String,
}

/// The mathematical view of a combined collection.
#[verifier::ext_equal]
pub struct CombinedModel {
    pub service: Seq<char>,
    pub region: Seq<char>,
    pub resources: DocModel,
    pub collected_at: Seq<char>,
}

impl CombinedCollection {
    /// The mathematical view of this combined collection.
    pub open spec fn model(self) -> CombinedModel {
        CombinedModel {
            service: self.service@,
            region: self.region@,
            resources: self.resources.model(),
            collected_at: self.collected_at@,
        }
    }
}

/// The grouping key of a record: its service and region.
pub open spec fn key_of(r: RecordModel) -> (Seq<char>, Seq<char>) {
    (r.service, r.region)
}

/// Whether a key list holds a key.
pub open spec fn keys_contain(keys: Seq<(Seq<char>, Seq<char>)>, k: (Seq<char>, Seq<char>)) -> bool {
    exists|i: int| 0 <= i < keys.len() && keys[i] == k
}

/// The distinct grouping keys of a record list, each at its first
/// occurrence, accumulated left to right.
pub open spec fn keys_acc(
    recs: Seq<RecordModel>,
    acc: Seq<(Seq<char>, Seq<char>)>,
) -> Seq<(Seq<char>, Seq<char>)>
    decreases recs,
{
    if recs.len() == 0 {
        acc
    } else {
        let k = key_of(recs[0]);
        keys_acc(
            recs.subrange(1, recs.len() as int),
            if keys_contain(acc, k) {
                acc
            } else {
                acc.push(k)
            },
        )
    }
}

/// The distinct grouping keys of a record list, in first-occurrence order.
pub open spec fn distinct_keys(recs: Seq<RecordModel>) -> Seq<(Seq<char>, Seq<char>)> {
    keys_acc(recs, Seq::empty())
}

/// The combined field map of one group: resource type to payload, a later
/// record of the same resource type overriding an earlier one.
pub open spec fn group_fields(recs: Seq<RecordModel>, k: (Seq<char>, Seq<char>)) -> Map<
    Seq<char>,
    DocModel,
>
    decreases recs,
{
    if recs.len() == 0 {
        Map::empty()
    } else {
        let prev = group_fields(recs.subrange(0, recs.len() - 1), k);
        let last = recs[recs.len() - 1];
        if key_of(last) == k {
            prev.insert(last.resource_type, last.resources)
        } else {
            prev
        }
    }
}

/// The timestamp of the first record of one group.
pub open spec fn first_ts(recs: Seq<RecordModel>, k: (Seq<char>, Seq<char>)) -> Seq<char>
    decreases recs,
{
    if recs.len() == 0 {
        Seq::empty()
    } else if key_of(recs[0]) == k {
        recs[0].collected_at
    } else {
        first_ts(recs.subrange(1, recs.len() as int), k)
    }
}

/// Whether two owned strings read the same.
fn string_pair_eq(a: &String, b: &String, c: &String, d: &String) -> (r: bool)
    ensures
        r == (a@ == b@ && c@ == d@),
{
    crate::document::str_eq(a.as_str(), b.as_str()) && crate::document::str_eq(
        c.as_str(),
        d.as_str(),
    )
}

/// Whether the key list holds the key.
fn keys_contain_exec(keys: &Vec<(String, String)>, service: &String, region: &String) -> (r:
    bool)
    ensures
        r == keys_contain(keys_model(keys@), (service@, region@)),
{
    let mut i: usize = 0;
    while i < keys.len()
        invariant
            i <= keys.len(),
            forall|j: int| 0 <= j < i ==> keys_model(keys@)[j] != (service@, region@),
        decreases keys.len() - i,
    {
        if string_pair_eq(&keys[i].0, service, &keys[i].1, region) {
            proof {
                assert(keys_model(keys@)[i as int] == (service@, region@));
            }
            return true;
        }
        proof {
            assert(keys_model(keys@)[i as int] == (keys@[i as int].0@, keys@[i as int].1@));
        }
        i = i + 1;
    }
    proof {
        assert forall|j: int| 0 <= j < keys_model(keys@).len() implies keys_model(keys@)[j]
            != (service@, region@) by {
            assert(keys_model(keys@)[j] == (keys@[j].0@, keys@[j].1@));
        }
    }
    false
}

/// The views of a key list.
pub open spec fn keys_model(s: Seq<(String, String)>) -> Seq<(Seq<char>, Seq<char>)> {
    s.map_values(|p: (String, String)| (p.0@, p.1@))
}

/// Group a run's records: one combined collection per distinct (service,
/// region) pair, in first-occurrence order, holding every record of the
/// pair keyed by resource type, stamped with the group's first timestamp.
pub fn combine_by_service_region(collections: &Vec<ResourceCollection>) -> (r: Vec<
    CombinedCollection,
>)
    ensures
        r@.len() == distinct_keys(records_model(collections@)).len(),
        forall|i: int| 0 <= i < r@.len() ==> {
            let recs = records_model(collections@);
            let k = distinct_keys(recs)[i];
            &&& (#[trigger] r@[i]).model().service == k.0
            &&& r@[i].model().region == k.1
            &&& r@[i].model().resources == DocModel::Object(group_fields(recs, k))
            &&& r@[i].model().collected_at == first_ts(recs, k)
        },
{
    let ghost recs = records_model(collections@);
    // first pass: the distinct keys, in first-occurrence order
    let mut keys: Vec<(String, String)> = Vec::new();
    let mut i: usize = 0;
    proof {
        assert(recs.subrange(0, recs.len() as int) =~= recs);
        assert(keys_model(keys@) =~= Seq::<(Seq<char>, Seq<char>)>::empty());
    }
    while i < collections.len()
        invariant
            i <= collections.len(),
            recs == records_model(collections@),
            recs.len() == collections@.len(),
            keys_acc(recs.subrange(i as int, recs.len() as int), keys_model(keys@))
                == distinct_keys(recs),
        decreases collections.len() - i,
    {
        let ghost suffix = recs.subrange(i as int, recs.len() as int);
        proof {
            assert(suffix[0] == recs[i as int]);
            assert(suffix.subrange(1, suffix.len() as int) =~= recs.subrange(
                i + 1,
                recs.len() as int,
            ));
        }
        let c = &collections[i];
        if !keys_contain_exec(&keys, &c.service, &c.region) {
            let ghost before = keys_model(keys@);
            keys.push((c.service.clone(), c.region.clone()));
            proof {
                assert(keys_model(keys@) =~= before.push(key_of(recs[i as int])));
            }
        }
        i = i + 1;
    }
    proof {
        assert(recs.subrange(recs.len() as int, recs.len() as int)
            =~= Seq::<RecordModel>::empty());
    }
    // second pass: fold each group's records into one combined document
    let mut out: Vec<CombinedCollection> = Vec::new();
    let mut g: usize = 0;
    while g < keys.len()
        invariant
            g <= keys.len(),
            recs == records_model(collections@),
            recs.len() == collections@.len(),
            keys_model(keys@) == distinct_keys(recs),
            out@.len() == g,
            forall|t: int| 0 <= t < g ==> {
                let k = distinct_keys(recs)[t];
                &&& (#[trigger] out@[t]).model().service == k.0
                &&& out@[t].model().region == k.1
                &&& out@[t].model().resources == DocModel::Object(group_fields(recs, k))
                &&& out@[t].model().collected_at == first_ts(recs, k)
            },
        decreases keys.len() - g,
    {
        let ghost k = keys_model(keys@)[g as int];
        proof {
            assert(k == (keys@[g as int].0@, keys@[g as int].1@));
        }
        let mut payload = Document::Object(Vec::new());
        let mut ts: String = String::new();
        let mut found = false;
        let mut j: usize = 0;
        proof {
            assert(payload.obj() =~= Map::<Seq<char>, DocModel>::empty());
            assert(recs.subrange(0, 0) =~= Seq::<RecordModel>::empty());
            assert(recs.subrange(0, recs.len() as int) =~= recs);
        }
        while j < collections.len()
            invariant
                j <= collections.len(),
                recs == records_model(collections@),
                recs.len() == collections@.len(),
                k == (keys@[g as int].0@, keys@[g as int].1@),
                g < keys@.len(),
                payload.is_object(),
                payload.obj() == group_fields(recs.subrange(0, j as int), k),
                found <==> exists|m: int| 0 <= m < j && key_of(#[trigger] recs[m]) == k,
                found ==> ts@ == first_ts(recs, k),
                !found ==> first_ts(recs, k) == first_ts(
                    recs.subrange(j as int, recs.len() as int),
                    k,
                ),
            decreases collections.len() - j,
        {
            let ghost pre = recs.subrange(0, j as int);
            proof {
                assert(recs.subrange(0, j + 1).subrange(0, j as int) =~= pre);
                assert(recs.subrange(0, j + 1)[j as int] == recs[j as int]);
                let tail = recs.subrange(j as int, recs.len() as int);
                assert(tail[0] == recs[j as int]);
                assert(tail.subrange(1, tail.len() as int) =~= recs.subrange(
                    j + 1,
                    recs.len() as int,
                ));
            }
            let c = &collections[j];
            if string_pair_eq(&c.service, &keys[g].0, &c.region, &keys[g].1) {
                proof {
                    crate::parallel::lemma_model_object(payload);
                }
                payload = payload.insert_field(c.resource_type.clone(), c.resources.deep_copy());
                if !found {
                    ts = c.collected_at.clone();
                    found = true;
                }
                proof {
                    crate::parallel::lemma_model_object(payload);
                    assert(key_of(recs[j as int]) == k);
                }
            } else {
                proof {
                    assert(key_of(recs[j as int]) != k);
                }
            }
            j = j + 1;
        }
        proof {
            assert(recs.subrange(0, recs.len() as int) =~= recs);
            assert(keys_contain(distinct_keys(recs), k)) by {
                assert(distinct_keys(recs)[g as int] == k);
            }
            lemma_distinct_keys_found(recs, Seq::empty(), k);
            crate::parallel::lemma_model_object(payload);
        }
        out.push(
            CombinedCollection {
                service: keys[g].0.clone(),
                region: keys[g].1.clone(),
                resources: payload,
                collected_at: ts,
            },
        );
        g = g + 1;
    }
    out
}

/// Every key the accumulator ends with either was there already or is the
/// key of some record.
proof fn lemma_distinct_keys_found(
    recs: Seq<RecordModel>,
    acc: Seq<(Seq<char>, Seq<char>)>,
    k: (Seq<char>, Seq<char>),
)
    requires
        keys_contain(keys_acc(recs, acc), k),
        !keys_contain(acc, k),
    ensures
        exists|m: int| 0 <= m < recs.len() && key_of(#[trigger] recs[m]) == k,
    decreases recs,
{
    if recs.len() > 0 {
        let k0 = key_of(recs[0]);
        let rest = recs.subrange(1, recs.len() as int);
        if k0 == k {
        } else {
            let acc2 = if keys_contain(acc, k0) {
                acc
            } else {
                acc.push(k0)
            };
            assert(!keys_contain(acc2, k)) by {
                if keys_contain(acc2, k) {
                    let i = choose|i: int| 0 <= i < acc2.len() && acc2[i] == k;
                    if i < acc.len() {
                        assert(acc[i] == k);
                    }
                }
            }
            lemma_distinct_keys_found(rest, acc2, k);
            let m = choose|m: int| 0 <= m < rest.len() && key_of(#[trigger] rest[m]) == k;
            assert(key_of(recs[m + 1]) == k);
        }
    }
}

} // verus!
