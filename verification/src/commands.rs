//! The decision core of a whole collection run: which (service, region)
//! collection tasks are scheduled, in which order, under which filters.
//!
//! The rules, in the order they are checked for each service name and each
//! region: an unknown service name is skipped; a global service is collected
//! only in the default region; a non-default region collects a service only
//! when the region-services filter names it (or there is no filter); and a
//! global service is scheduled at most once per requested name.

use crate::collectors::{ascii_lower, spec_from_str, ServiceType};
use crate::strings::{contains_arg, string_views, vec_contains_str};
use vstd::prelude::*;

verus! {

/// One scheduled collection: a service, the name it was requested under,
/// and the region it is collected in.
#[derive(Debug, PartialEq)]
pub struct CollectionTask {
    pub service: ServiceType,
    pub name: String,
    pub region: String,
}

/// The mathematical view of a scheduled collection.
#[verifier::ext_equal]
pub struct TaskModel {
    pub service: ServiceType,
    pub name: Seq<char>,
    pub region: Seq<char>,
}

impl CollectionTask {
    /// The mathematical view of one scheduled collection.
    pub open spec fn model(self) -> TaskModel {
        TaskModel { service: self.service, name: self.name@, region: self.region@ }
    }
}

/// The views of a sequence of tasks.
pub open spec fn tasks_model(s: Seq<CollectionTask>) -> Seq<TaskModel> {
    s.map_values(|t: CollectionTask| t.model())
}

/// Whether the region-services filter allows a service name.
pub open spec fn task_filter_allows(filter: Option<Seq<Seq<char>>>, name: Seq<char>) -> bool {
    match filter {
        Some(f) => contains_arg(f, name),
        None => true,
    }
}

/// Whether a service is global rather than per-region.
pub open spec fn spec_is_global(st: ServiceType) -> bool {
    st == ServiceType::S3 || st == ServiceType::Iam
}

/// The tasks one service contributes across the region list, with the set
/// of global service names scheduled so far threaded through.
pub open spec fn region_tasks(
    st: ServiceType,
    name: Seq<char>,
    regions: Seq<Seq<char>>,
    default_region: Seq<char>,
    filter: Option<Seq<Seq<char>>>,
    seen: Set<Seq<char>>,
) -> (Seq<TaskModel>, Set<Seq<char>>)
    decreases regions,
{
    if regions.len() == 0 {
        (Seq::empty(), seen)
    } else {
        let region = regions[0];
        let rest = regions.subrange(1, regions.len() as int);
        if spec_is_global(st) && region != default_region {
            region_tasks(st, name, rest, default_region, filter, seen)
        } else if region != default_region && !task_filter_allows(filter, name) {
            region_tasks(st, name, rest, default_region, filter, seen)
        } else if spec_is_global(st) && seen.contains(name) {
            region_tasks(st, name, rest, default_region, filter, seen)
        } else {
            let seen2 = if spec_is_global(st) {
                seen.insert(name)
            } else {
                seen
            };
            let pr = region_tasks(st, name, rest, default_region, filter, seen2);
            (seq![TaskModel { service: st, name, region }] + pr.0, pr.1)
        }
    }
}

/// The tasks of a whole run, service by service.
pub open spec fn plan_model(
    services: Seq<Seq<char>>,
    regions: Seq<Seq<char>>,
    default_region: Seq<char>,
    filter: Option<Seq<Seq<char>>>,
    seen: Set<Seq<char>>,
) -> Seq<TaskModel>
    decreases services,
{
    if services.len() == 0 {
        Seq::empty()
    } else {
        let name = services[0];
        let rest = services.subrange(1, services.len() as int);
        match spec_from_str(ascii_lower(name)) {
            None => plan_model(rest, regions, default_region, filter, seen),
            Some(st) => {
                let pr = region_tasks(st, name, regions, default_region, filter, seen);
                pr.0 + plan_model(rest, regions, default_region, filter, pr.1)
            },
        }
    }
}

/// The view of the optional region-services filter.
pub open spec fn filter_model(filter: Option<Vec<String>>) -> Option<Seq<Seq<char>>> {
    match filter {
        Some(f) => Some(string_views(f@)),
        None => None,
    }
}

/// Schedule the tasks of one run: every requested service crossed with
/// every region, under the skipping rules above.
pub fn plan_collection_tasks(
    services: &Vec<String>,
    regions: &Vec<String>,
    default_region: &str,
    region_services: &Option<Vec<String>>,
) -> (r: Vec<CollectionTask>)
    ensures
        tasks_model(r@) == plan_model(
            string_views(services@),
            string_views(regions@),
            default_region@,
            filter_model(*region_services),
            Set::empty(),
        ),
{
    let ghost all = string_views(services@);
    let ghost rg = string_views(regions@);
    let ghost fm = filter_model(*region_services);
    let ghost total = plan_model(all, rg, default_region@, fm, Set::<Seq<char>>::empty());
    let mut out: Vec<CollectionTask> = Vec::new();
    let mut seen_names: Vec<String> = Vec::new();
    let ghost mut seen = Set::<Seq<char>>::empty();
    let mut si: usize = 0;
    proof {
        assert(tasks_model(out@) =~= Seq::<TaskModel>::empty());
        assert(all.subrange(0, all.len() as int) =~= all);
        assert(forall|x: Seq<char>|
            seen.contains(x) <==> contains_arg(string_views(seen_names@), x));
        assert(Seq::<TaskModel>::empty() + total =~= total);
    }
    while si < services.len()
        invariant
            si <= services.len(),
            all == string_views(services@),
            rg == string_views(regions@),
            fm == filter_model(*region_services),
            all.len() == services@.len(),
            total == plan_model(all, rg, default_region@, fm, Set::<Seq<char>>::empty()),
            forall|x: Seq<char>|
                seen.contains(x) <==> contains_arg(string_views(seen_names@), x),
            tasks_model(out@) + plan_model(
                all.subrange(si as int, all.len() as int),
                rg,
                default_region@,
                fm,
                seen,
            ) == total,
        decreases services.len() - si,
    {
        let ghost svc_suffix = all.subrange(si as int, all.len() as int);
        let ghost name = all[si as int];
        proof {
            assert(svc_suffix[0] == name);
            assert(svc_suffix.subrange(1, svc_suffix.len() as int) =~= all.subrange(
                si + 1,
                all.len() as int,
            ));
        }
        match ServiceType::from_str(services[si].as_str()) {
            None => {},
            Some(st) => {
                let ghost seen_at_entry = seen;
                let mut rj: usize = 0;
                proof {
                    assert(rg.subrange(0, rg.len() as int) =~= rg);
                }
                while rj < regions.len()
                    invariant
                        rj <= regions.len(),
                        all == string_views(services@),
                        rg == string_views(regions@),
                        fm == filter_model(*region_services),
                        all.len() == services@.len(),
                        rg.len() == regions@.len(),
                        si < services.len(),
                        name == all[si as int],
                        Some(st) == spec_from_str(ascii_lower(name)),
                        total == plan_model(all, rg, default_region@, fm, Set::<Seq<char>>::empty()),
                        forall|x: Seq<char>|
                            seen.contains(x) <==> contains_arg(string_views(seen_names@), x),
                        ({
                            let pr = region_tasks(
                                st,
                                name,
                                rg.subrange(rj as int, rg.len() as int),
                                default_region@,
                                fm,
                                seen,
                            );
                            tasks_model(out@) + pr.0 + plan_model(
                                all.subrange(si + 1, all.len() as int),
                                rg,
                                default_region@,
                                fm,
                                pr.1,
                            ) == total
                        }),
                    decreases regions.len() - rj,
                {
                    let ghost rg_suffix = rg.subrange(rj as int, rg.len() as int);
                    let ghost region = rg[rj as int];
                    proof {
                        assert(rg_suffix[0] == region);
                        assert(rg_suffix.subrange(1, rg_suffix.len() as int) =~= rg.subrange(
                            rj + 1,
                            rg.len() as int,
                        ));
                    }
                    let is_default = crate::document::str_eq(
                        regions[rj].as_str(),
                        default_region,
                    );
                    let global = st.is_global();
                    let allowed = if is_default {
                        true
                    } else {
                        match region_services {
                            Some(f) => vec_contains_str(f, services[si].as_str()),
                            None => true,
                        }
                    };
                    if global && !is_default {
                        // a global service is collected only in the default region
                    } else if !is_default && !allowed {
                        // this region only collects the filtered services
                    } else if global && vec_contains_str(&seen_names, services[si].as_str()) {
                        // this global service is already scheduled
                    } else {
                        if global {
                            let ghost names_before = string_views(seen_names@);
                            let ghost seen_before = seen;
                            seen_names.push(services[si].clone());
                            proof {
                                seen = seen.insert(name);
                                assert(string_views(seen_names@) =~= names_before.push(name));
                                assert forall|x: Seq<char>|
                                    seen.contains(x) <==> contains_arg(
                                        string_views(seen_names@),
                                        x,
                                    ) by {
                                    if x == name {
                                        assert(string_views(seen_names@)[names_before.len()
                                            as int] == name);
                                    } else {
                                        if seen_before.contains(x) {
                                            let i = choose|i: int|
                                                0 <= i < names_before.len() && names_before[i]
                                                    == x;
                                            assert(string_views(seen_names@)[i] == x);
                                        }
                                        if contains_arg(string_views(seen_names@), x) {
                                            let i = choose|i: int|
                                                0 <= i < string_views(seen_names@).len()
                                                    && string_views(seen_names@)[i] == x;
                                            assert(i < names_before.len());
                                            assert(names_before[i] == x);
                                        }
                                    }
                                }
                            }
                        }
                        let ghost out_before = tasks_model(out@);
                        out.push(
                            CollectionTask {
                                service: st,
                                name: services[si].clone(),
                                region: regions[rj].clone(),
                            },
                        );
                        proof {
                            assert(tasks_model(out@) =~= out_before.push(
                                TaskModel { service: st, name, region },
                            ));
                            let pr_next = region_tasks(
                                st,
                                name,
                                rg.subrange(rj + 1, rg.len() as int),
                                default_region@,
                                fm,
                                seen,
                            );
                            assert(out_before + (seq![
                                TaskModel { service: st, name, region },
                            ] + pr_next.0) + plan_model(
                                all.subrange(si + 1, all.len() as int),
                                rg,
                                default_region@,
                                fm,
                                pr_next.1,
                            ) =~= tasks_model(out@) + pr_next.0 + plan_model(
                                all.subrange(si + 1, all.len() as int),
                                rg,
                                default_region@,
                                fm,
                                pr_next.1,
                            ));
                        }
                    }
                    rj = rj + 1;
                }
                proof {
                    assert(rg.subrange(rg.len() as int, rg.len() as int)
                        =~= Seq::<Seq<char>>::empty());
                }
            },
        }
        si = si + 1;
    }
    proof {
        assert(all.subrange(all.len() as int, all.len() as int) =~= Seq::<Seq<char>>::empty());
        assert(tasks_model(out@) + Seq::<TaskModel>::empty() =~= tasks_model(out@));
    }
    out
}

} // verus!
