//! The remote CLI client's configuration: the profile every operation runs
//! under, and the fixed invocation prefix shared by all operations.

use crate::strings::string_views;
use vstd::prelude::*;

verus! {

/// The client for the account-inventory CLI: a profile name. The client is
/// cheap to clone and safe to share across concurrent operations.
#[derive(Debug, Clone)]
pub struct AwsCli {
    profile: String,
}

/// The full argument list of one operation: the profile, the JSON output
/// flags, then the operation's own arguments.
pub open spec fn spec_invocation(profile: Seq<char>, args: Seq<Seq<char>>) -> Seq<Seq<char>> {
    seq!["--profile"@, profile, "--output"@, "json"@, "--no-cli-pager"@] + args
}

impl AwsCli {
    /// The profile this client runs under.
    pub closed spec fn profile_spec(&self) -> Seq<char> {
        self.profile@
    }

    /// A client for one profile.
    pub fn new(profile: String) -> (r: Self)
        ensures
            r.profile_spec() == profile@,
    {
        AwsCli { profile }
    }

    /// The profile this client runs under.
    pub fn profile(&self) -> (r: &String)
        ensures
            r@ == self.profile_spec(),
    {
        &self.profile
    }

    /// Assemble the full argument list of one operation.
    pub fn invocation_args(&self, args: &Vec<String>) -> (r: Vec<String>)
        ensures
            string_views(r@) == spec_invocation(self.profile_spec(), string_views(args@)),
    {
        let mut out: Vec<String> = Vec::new();
        out.push("--profile".to_owned());
        out.push(self.profile.clone());
        out.push("--output".to_owned());
        out.push("json".to_owned());
        out.push("--no-cli-pager".to_owned());
        let mut i: usize = 0;
        while i < args.len()
            invariant
                i <= args.len(),
                out@.len() == 5 + i,
                out@[0]@ == "--profile"@,
                out@[1]@ == self.profile_spec(),
                out@[2]@ == "--output"@,
                out@[3]@ == "json"@,
                out@[4]@ == "--no-cli-pager"@,
                forall|j: int| 0 <= j < i ==> out@[5 + j]@ == args@[j]@,
            decreases args.len() - i,
        {
            out.push(args[i].clone());
            i = i + 1;
        }
        proof {
            assert(string_views(out@) =~= spec_invocation(
                self.profile_spec(),
                string_views(args@),
            ));
        }
        out
    }
}

/// The region a profile reported, or the fallback region when it reported
/// none.
pub fn region_or_default(region: String) -> (r: String)
    ensures
        region@.len() == 0 ==> r@ == "ap-southeast-1"@,
        region@.len() > 0 ==> r == region,
{
    if region.as_str().is_empty() {
        "ap-southeast-1".to_owned()
    } else {
        region
    }
}

} // verus!
