//! Region handling: assembling the region list of a run and validating
//! requested regions against the account's known set, with suggestions for
//! a misspelt one.

use crate::document::str_eq;
use crate::strings::{contains_arg, string_views, vec_contains_str};
use vstd::prelude::*;
use vstd::string::*;

verus! {

/// The elements of `s` that differ from `d`, in order.
pub open spec fn keep_not_equal(s: Seq<Seq<char>>, d: Seq<char>) -> Seq<Seq<char>>
    decreases s,
{
    if s.len() == 0 {
        Seq::empty()
    } else {
        (if s[0] == d {
            Seq::empty()
        } else {
            seq![s[0]]
        }) + keep_not_equal(s.subrange(1, s.len() as int), d)
    }
}

/// The regions of one run: the profile's default region first, then the
/// extra regions, with repeats of the default dropped.
pub fn regions_with_default(default_region: String, additional: Vec<String>) -> (r: Vec<String>)
    ensures
        string_views(r@) == seq![default_region@] + keep_not_equal(
            string_views(additional@),
            default_region@,
        ),
{
    let ghost all = string_views(additional@);
    let ghost d = default_region@;
    let mut out: Vec<String> = Vec::new();
    out.push(default_region.clone());
    let mut rest = additional;
    while rest.len() > 0
        invariant
            d == default_region@,
            string_views(out@) + keep_not_equal(string_views(rest@), d) == seq![d]
                + keep_not_equal(all, d),
        decreases rest.len(),
    {
        let ghost before = string_views(rest@);
        let ghost out_before = string_views(out@);
        let region = rest.remove(0);
        proof {
            assert(string_views(rest@) =~= before.subrange(1, before.len() as int));
            assert(before[0] == region@);
        }
        if !str_eq(region.as_str(), default_region.as_str()) {
            out.push(region);
            proof {
                assert(string_views(out@) =~= out_before.push(before[0]));
                assert(out_before + (seq![before[0]] + keep_not_equal(string_views(rest@), d))
                    =~= string_views(out@) + keep_not_equal(string_views(rest@), d));
            }
        }
    }
    proof {
        assert(keep_not_equal(string_views(rest@), d) =~= Seq::<Seq<char>>::empty());
        assert(string_views(out@) + Seq::<Seq<char>>::empty() =~= string_views(out@));
    }
    out
}

/// Whether `a` begins with the first characters of `b` (up to three).
pub open spec fn sim_prefix(a: Seq<char>, b: Seq<char>) -> bool {
    let k: int = if b.len() < 3 {
        b.len() as int
    } else {
        3
    };
    a.len() >= k && a.subrange(0, k) == b.subrange(0, k)
}

/// Whether two region names look alike: either begins with the other's
/// first characters.
pub open spec fn similar_region(a: Seq<char>, b: Seq<char>) -> bool {
    sim_prefix(a, b) || sim_prefix(b, a)
}

/// The known regions that look like `r`, in order.
pub open spec fn keep_similar(valid: Seq<Seq<char>>, r: Seq<char>) -> Seq<Seq<char>>
    decreases valid,
{
    if valid.len() == 0 {
        Seq::empty()
    } else {
        (if similar_region(valid[0], r) {
            seq![valid[0]]
        } else {
            Seq::empty()
        }) + keep_similar(valid.subrange(1, valid.len() as int), r)
    }
}

/// At most the first `n` elements of `s`.
pub open spec fn take_up_to(s: Seq<Seq<char>>, n: int) -> Seq<Seq<char>> {
    if s.len() <= n {
        s
    } else {
        s.subrange(0, n)
    }
}

/// What is suggested for an unknown region: up to five known regions that
/// look like it, or, when none does, up to ten known regions as a sample.
pub open spec fn spec_suggestions(valid: Seq<Seq<char>>, r: Seq<char>) -> Seq<Seq<char>> {
    if keep_similar(valid, r).len() > 0 {
        take_up_to(keep_similar(valid, r), 5)
    } else {
        take_up_to(valid, 10)
    }
}

/// The first requested region that is not a known region.
pub open spec fn first_invalid(req: Seq<Seq<char>>, valid: Seq<Seq<char>>) -> Option<Seq<char>>
    decreases req,
{
    if req.len() == 0 {
        None
    } else if !contains_arg(valid, req[0]) {
        Some(req[0])
    } else {
        first_invalid(req.subrange(1, req.len() as int), valid)
    }
}

/// The report for a requested region that is unknown.
#[derive(Debug, PartialEq)]
pub struct RegionError {
    /// The unknown region, exactly as requested.
    pub invalid: String,
    /// Known regions to offer instead.
    pub suggestions: Vec<String>,
}

/// Whether `a` begins with the first characters of `b` (up to three).
fn sim_one(a: &str, b: &str) -> (r: bool)
    ensures
        r == sim_prefix(a@, b@),
{
    let bl = b.unicode_len();
    let k = if bl < 3 {
        bl
    } else {
        3
    };
    if a.unicode_len() < k {
        return false;
    }
    let mut i: usize = 0;
    while i < k
        invariant
            i <= k,
            k <= a@.len(),
            k <= b@.len(),
            k == if b@.len() < 3 {
                b@.len() as int
            } else {
                3int
            },
            forall|j: int| 0 <= j < i ==> a@[j] == b@[j],
        decreases k - i,
    {
        if a.get_char(i) != b.get_char(i) {
            proof {
                assert(a@.subrange(0, k as int)[i as int] != b@.subrange(0, k as int)[i as int]);
            }
            return false;
        }
        i = i + 1;
    }
    proof {
        assert(a@.subrange(0, k as int) =~= b@.subrange(0, k as int));
    }
    true
}

/// Check every requested region against the known set. The first unknown
/// one is reported, with suggestions; a run starts only when all are known.
pub fn check_regions(requested: &Vec<String>, valid: &Vec<String>) -> (r: Result<
    (),
    RegionError,
>)
    ensures
        r is Ok <==> first_invalid(string_views(requested@), string_views(valid@)) is None,
        r matches Err(e) ==> {
            &&& first_invalid(string_views(requested@), string_views(valid@)) == Some(e.invalid@)
            &&& string_views(e.suggestions@) == spec_suggestions(string_views(valid@), e.invalid@)
        },
{
    let ghost req = string_views(requested@);
    let ghost va = string_views(valid@);
    let mut i: usize = 0;
    proof {
        assert(req.subrange(0, req.len() as int) =~= req);
    }
    while i < requested.len()
        invariant
            i <= requested.len(),
            req == string_views(requested@),
            va == string_views(valid@),
            req.len() == requested@.len(),
            first_invalid(req, va) == first_invalid(req.subrange(i as int, req.len() as int), va),
        decreases requested.len() - i,
    {
        let ghost suffix = req.subrange(i as int, req.len() as int);
        proof {
            assert(suffix[0] == req[i as int]);
            assert(suffix.subrange(1, suffix.len() as int) =~= req.subrange(
                i + 1,
                req.len() as int,
            ));
        }
        if !vec_contains_str(valid, requested[i].as_str()) {
            // gather the known regions that look like the unknown one
            let mut similar: Vec<String> = Vec::new();
            let mut j: usize = 0;
            proof {
                assert(va.subrange(0, va.len() as int) =~= va);
                assert(Seq::<Seq<char>>::empty() + keep_similar(va, req[i as int]) =~= keep_similar(
                    va,
                    req[i as int],
                ));
            }
            while j < valid.len()
                invariant
                    j <= valid.len(),
                    va == string_views(valid@),
                    va.len() == valid@.len(),
                    i < requested@.len(),
                    req == string_views(requested@),
                    string_views(similar@) + keep_similar(
                        va.subrange(j as int, va.len() as int),
                        req[i as int],
                    ) == keep_similar(va, req[i as int]),
                decreases valid.len() - j,
            {
                let ghost vsuffix = va.subrange(j as int, va.len() as int);
                proof {
                    assert(vsuffix[0] == va[j as int]);
                    assert(vsuffix.subrange(1, vsuffix.len() as int) =~= va.subrange(
                        j + 1,
                        va.len() as int,
                    ));
                }
                if sim_one(valid[j].as_str(), requested[i].as_str()) || sim_one(
                    requested[i].as_str(),
                    valid[j].as_str(),
                ) {
                    let ghost before = string_views(similar@);
                    similar.push(valid[j].clone());
                    proof {
                        assert(string_views(similar@) =~= before.push(va[j as int]));
                        assert(before + (seq![va[j as int]] + keep_similar(
                            va.subrange(j + 1, va.len() as int),
                            req[i as int],
                        )) =~= string_views(similar@) + keep_similar(
                            va.subrange(j + 1, va.len() as int),
                            req[i as int],
                        ));
                    }
                }
                j = j + 1;
            }
            proof {
                assert(keep_similar(va.subrange(va.len() as int, va.len() as int), req[i as int])
                    =~= Seq::<Seq<char>>::empty());
                assert(string_views(similar@) + Seq::<Seq<char>>::empty() =~= string_views(
                    similar@,
                ));
            }
            // keep at most five of them, or sample the known regions
            let use_similar = similar.len() > 0;
            let cap: usize = if use_similar {
                5
            } else {
                10
            };
            let source: Vec<String> = if use_similar {
                similar
            } else {
                crate::strings::copy_strings(valid)
            };
            let ghost source_m = string_views(source@);
            proof {
                if use_similar {
                    assert(source_m == keep_similar(va, req[i as int]));
                } else {
                    assert(keep_similar(va, req[i as int]).len() == 0);
                    assert(source_m == va);
                }
            }
            let bound: usize = if source.len() < cap {
                source.len()
            } else {
                cap
            };
            let mut suggestions: Vec<String> = Vec::new();
            let mut t: usize = 0;
            while t < bound
                invariant
                    t <= bound,
                    bound <= source@.len(),
                    source_m == string_views(source@),
                    source_m.len() == source@.len(),
                    suggestions@.len() == t,
                    forall|m: int| 0 <= m < t ==> suggestions@[m]@ == source_m[m],
                decreases bound - t,
            {
                suggestions.push(source[t].clone());
                t = t + 1;
            }
            proof {
                assert(string_views(suggestions@) =~= take_up_to(source_m, bound as int));
                assert(take_up_to(source_m, bound as int) =~= take_up_to(source_m, cap as int));
                assert(string_views(suggestions@) == spec_suggestions(va, req[i as int]));
            }
            return Err(RegionError { invalid: requested[i].clone(), suggestions });
        }
        i = i + 1;
    }
    proof {
        assert(req.subrange(req.len() as int, req.len() as int) =~= Seq::<Seq<char>>::empty());
    }
    Ok(())
}

} // verus!
