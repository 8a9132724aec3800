//! The catalog of supported services: their names, categories, region
//! behaviour, and the declarative collection configuration of each.

use crate::collector_builder::{CollectorBuilder, DetailTemplate, ModeModel, RegionMode, RegionModeModel};
use crate::strings::string_views;
use vstd::prelude::*;
use vstd::string::*;

verus! {

/// ASCII lowercase of one character.
pub open spec fn lower_char(c: char) -> char {
    if c == 'A' {
        'a'
    } else if c == 'B' {
        'b'
    } else if c == 'C' {
        'c'
    } else if c == 'D' {
        'd'
    } else if c == 'E' {
        'e'
    } else if c == 'F' {
        'f'
    } else if c == 'G' {
        'g'
    } else if c == 'H' {
        'h'
    } else if c == 'I' {
        'i'
    } else if c == 'J' {
        'j'
    } else if c == 'K' {
        'k'
    } else if c == 'L' {
        'l'
    } else if c == 'M' {
        'm'
    } else if c == 'N' {
        'n'
    } else if c == 'O' {
        'o'
    } else if c == 'P' {
        'p'
    } else if c == 'Q' {
        'q'
    } else if c == 'R' {
        'r'
    } else if c == 'S' {
        's'
    } else if c == 'T' {
        't'
    } else if c == 'U' {
        'u'
    } else if c == 'V' {
        'v'
    } else if c == 'W' {
        'w'
    } else if c == 'X' {
        'x'
    } else if c == 'Y' {
        'y'
    } else if c == 'Z' {
        'z'
    } else {
        c
    }
}

/// ASCII lowercase of a whole string.
pub open spec fn ascii_lower(s: Seq<char>) -> Seq<char> {
    s.map_values(|c: char| lower_char(c))
}

/// ASCII lowercase of one character.
fn lower_char_exec(c: char) -> (r: char)
    ensures
        r == lower_char(c),
{
    match c {
        'A' => 'a',
        'B' => 'b',
        'C' => 'c',
        'D' => 'd',
        'E' => 'e',
        'F' => 'f',
        'G' => 'g',
        'H' => 'h',
        'I' => 'i',
        'J' => 'j',
        'K' => 'k',
        'L' => 'l',
        'M' => 'm',
        'N' => 'n',
        'O' => 'o',
        'P' => 'p',
        'Q' => 'q',
        'R' => 'r',
        'S' => 's',
        'T' => 't',
        'U' => 'u',
        'V' => 'v',
        'W' => 'w',
        'X' => 'x',
        'Y' => 'y',
        'Z' => 'z',
        other => other,
    }
}

/// Whether `s`, lowered to ASCII lowercase, reads exactly `target`.
fn eq_lower(s: &str, target: &str) -> (r: bool)
    ensures
        r == (ascii_lower(s@) == target@),
{
    let n = s.unicode_len();
    if n != target.unicode_len() {
        proof {
            assert(ascii_lower(s@).len() == s@.len());
        }
        return false;
    }
    let mut i: usize = 0;
    while i < n
        invariant
            i <= n,
            n == s@.len(),
            n == target@.len(),
            forall|j: int| 0 <= j < i ==> lower_char(s@[j]) == target@[j],
        decreases n - i,
    {
        if lower_char_exec(s.get_char(i)) != target.get_char(i) {
            proof {
                assert(ascii_lower(s@)[i as int] != target@[i as int]);
            }
            return false;
        }
        i = i + 1;
    }
    proof {
        assert(ascii_lower(s@) =~= target@);
    }
    true
}

/// Categories the supported services are grouped under.
#[derive(Debug, Clone, Copy, PartialEq, Eq, Hash, Structural)]
pub enum ServiceCategory {
    Compute,
    Storage,
    Networking,
    Security,
    Management,
    Integration,
    DevTools,
}

/// The display heading of a category.
pub open spec fn spec_display_name(c: ServiceCategory) -> Seq<char> {
    match c {
        ServiceCategory::Compute => "🔧 Compute & Containers"@,
        ServiceCategory::Storage => "💾 Storage & Database"@,
        ServiceCategory::Networking => "🌐 Networking"@,
        ServiceCategory::Security => "🔐 Security & Identity"@,
        ServiceCategory::Management => "📊 Management & Monitoring"@,
        ServiceCategory::Integration => "📬 Application Integration"@,
        ServiceCategory::DevTools => "🐳 Developer Tools"@,
    }
}

impl ServiceCategory {
    /// The display heading of this category.
    pub fn display_name(&self) -> (r: &'static str)
        ensures
            r@ == spec_display_name(*self),
    {
        match self {
            ServiceCategory::Compute => "🔧 Compute & Containers",
            ServiceCategory::Storage => "💾 Storage & Database",
            ServiceCategory::Networking => "🌐 Networking",
            ServiceCategory::Security => "🔐 Security & Identity",
            ServiceCategory::Management => "📊 Management & Monitoring",
            ServiceCategory::Integration => "📬 Application Integration",
            ServiceCategory::DevTools => "🐳 Developer Tools",
        }
    }
}

/// Every supported service.
#[derive(Debug, Clone, Copy, PartialEq, Eq, Structural)]
pub enum ServiceType {
    Ec2,
    S3,
    Rds,
    Lambda,
    Iam,
    CloudFormation,
    Ecs,
    Vpc,
    Elb,
    Route53,
    CloudFront,
    ElastiCache,
    SecretsManager,
    Ecr,
    Acm,
    Waf,
    CloudWatch,
    EventBridge,
    Sns,
    Sqs,
    Ses,
}

/// The canonical name of a service.
pub open spec fn spec_as_str(s: ServiceType) -> Seq<char> {
    match s {
        ServiceType::Ec2 => "ec2"@,
        ServiceType::S3 => "s3"@,
        ServiceType::Rds => "rds"@,
        ServiceType::Lambda => "lambda"@,
        ServiceType::Iam => "iam"@,
        ServiceType::CloudFormation => "cloudformation"@,
        ServiceType::Ecs => "ecs"@,
        ServiceType::Vpc => "vpc"@,
        ServiceType::Elb => "elb"@,
        ServiceType::Route53 => "route53"@,
        ServiceType::CloudFront => "cloudfront"@,
        ServiceType::ElastiCache => "elasticache"@,
        ServiceType::SecretsManager => "secretsmanager"@,
        ServiceType::Ecr => "ecr"@,
        ServiceType::Acm => "acm"@,
        ServiceType::Waf => "waf"@,
        ServiceType::CloudWatch => "cloudwatch"@,
        ServiceType::EventBridge => "eventbridge"@,
        ServiceType::Sns => "sns"@,
        ServiceType::Sqs => "sqs"@,
        ServiceType::Ses => "ses"@,
    }
}

/// Which service a (case-folded) name denotes: each canonical name, plus
/// "elbv2" as an alias for the load balancers.
pub open spec fn spec_from_str(t: Seq<char>) -> Option<ServiceType> {
    if t == "ec2"@ {
        Some(ServiceType::Ec2)
    } else if t == "s3"@ {
        Some(ServiceType::S3)
    } else if t == "rds"@ {
        Some(ServiceType::Rds)
    } else if t == "lambda"@ {
        Some(ServiceType::Lambda)
    } else if t == "iam"@ {
        Some(ServiceType::Iam)
    } else if t == "cloudformation"@ {
        Some(ServiceType::CloudFormation)
    } else if t == "ecs"@ {
        Some(ServiceType::Ecs)
    } else if t == "vpc"@ {
        Some(ServiceType::Vpc)
    } else if t == "elb"@ || t == "elbv2"@ {
        Some(ServiceType::Elb)
    } else if t == "route53"@ {
        Some(ServiceType::Route53)
    } else if t == "cloudfront"@ {
        Some(ServiceType::CloudFront)
    } else if t == "elasticache"@ {
        Some(ServiceType::ElastiCache)
    } else if t == "secretsmanager"@ {
        Some(ServiceType::SecretsManager)
    } else if t == "ecr"@ {
        Some(ServiceType::Ecr)
    } else if t == "acm"@ {
        Some(ServiceType::Acm)
    } else if t == "waf"@ {
        Some(ServiceType::Waf)
    } else if t == "cloudwatch"@ {
        Some(ServiceType::CloudWatch)
    } else if t == "eventbridge"@ {
        Some(ServiceType::EventBridge)
    } else if t == "sns"@ {
        Some(ServiceType::Sns)
    } else if t == "sqs"@ {
        Some(ServiceType::Sqs)
    } else if t == "ses"@ {
        Some(ServiceType::Ses)
    } else {
        None
    }
}

/// Every supported service, in catalog order.
pub open spec fn all_services() -> Seq<ServiceType> {
    seq![
        ServiceType::Ec2,
        ServiceType::S3,
        ServiceType::Rds,
        ServiceType::Lambda,
        ServiceType::Iam,
        ServiceType::CloudFormation,
        ServiceType::Ecs,
        ServiceType::Vpc,
        ServiceType::Elb,
        ServiceType::Route53,
        ServiceType::CloudFront,
        ServiceType::ElastiCache,
        ServiceType::SecretsManager,
        ServiceType::Ecr,
        ServiceType::Acm,
        ServiceType::Waf,
        ServiceType::CloudWatch,
        ServiceType::EventBridge,
        ServiceType::Sns,
        ServiceType::Sqs,
        ServiceType::Ses,
    ]
}

/// The category of a service.
pub open spec fn spec_category(s: ServiceType) -> ServiceCategory {
    match s {
        ServiceType::Ec2 | ServiceType::Ecs | ServiceType::Lambda => ServiceCategory::Compute,
        ServiceType::S3 | ServiceType::Rds | ServiceType::ElastiCache => ServiceCategory::Storage,
        ServiceType::Vpc | ServiceType::Elb | ServiceType::Route53 | ServiceType::CloudFront =>
            ServiceCategory::Networking,
        ServiceType::Iam | ServiceType::Acm | ServiceType::Waf | ServiceType::SecretsManager =>
            ServiceCategory::Security,
        ServiceType::CloudFormation | ServiceType::CloudWatch | ServiceType::EventBridge =>
            ServiceCategory::Management,
        ServiceType::Sns | ServiceType::Sqs | ServiceType::Ses => ServiceCategory::Integration,
        ServiceType::Ecr => ServiceCategory::DevTools,
    }
}

impl ServiceType {
    /// Which service a name denotes, matched without regard to ASCII case.
    pub fn from_str(s: &str) -> (r: Option<Self>)
        ensures
            r == spec_from_str(ascii_lower(s@)),
    {
        if eq_lower(s, "ec2") {
            Some(ServiceType::Ec2)
        } else if eq_lower(s, "s3") {
            Some(ServiceType::S3)
        } else if eq_lower(s, "rds") {
            Some(ServiceType::Rds)
        } else if eq_lower(s, "lambda") {
            Some(ServiceType::Lambda)
        } else if eq_lower(s, "iam") {
            Some(ServiceType::Iam)
        } else if eq_lower(s, "cloudformation") {
            Some(ServiceType::CloudFormation)
        } else if eq_lower(s, "ecs") {
            Some(ServiceType::Ecs)
        } else if eq_lower(s, "vpc") {
            Some(ServiceType::Vpc)
        } else if eq_lower(s, "elb") || eq_lower(s, "elbv2") {
            Some(ServiceType::Elb)
        } else if eq_lower(s, "route53") {
            Some(ServiceType::Route53)
        } else if eq_lower(s, "cloudfront") {
            Some(ServiceType::CloudFront)
        } else if eq_lower(s, "elasticache") {
            Some(ServiceType::ElastiCache)
        } else if eq_lower(s, "secretsmanager") {
            Some(ServiceType::SecretsManager)
        } else if eq_lower(s, "ecr") {
            Some(ServiceType::Ecr)
        } else if eq_lower(s, "acm") {
            Some(ServiceType::Acm)
        } else if eq_lower(s, "waf") {
            Some(ServiceType::Waf)
        } else if eq_lower(s, "cloudwatch") {
            Some(ServiceType::CloudWatch)
        } else if eq_lower(s, "eventbridge") {
            Some(ServiceType::EventBridge)
        } else if eq_lower(s, "sns") {
            Some(ServiceType::Sns)
        } else if eq_lower(s, "sqs") {
            Some(ServiceType::Sqs)
        } else if eq_lower(s, "ses") {
            Some(ServiceType::Ses)
        } else {
            None
        }
    }

    /// The canonical name of this service.
    pub fn as_str(&self) -> (r: &'static str)
        ensures
            r@ == spec_as_str(*self),
    {
        match self {
            ServiceType::Ec2 => "ec2",
            ServiceType::S3 => "s3",
            ServiceType::Rds => "rds",
            ServiceType::Lambda => "lambda",
            ServiceType::Iam => "iam",
            ServiceType::CloudFormation => "cloudformation",
            ServiceType::Ecs => "ecs",
            ServiceType::Vpc => "vpc",
            ServiceType::Elb => "elb",
            ServiceType::Route53 => "route53",
            ServiceType::CloudFront => "cloudfront",
            ServiceType::ElastiCache => "elasticache",
            ServiceType::SecretsManager => "secretsmanager",
            ServiceType::Ecr => "ecr",
            ServiceType::Acm => "acm",
            ServiceType::Waf => "waf",
            ServiceType::CloudWatch => "cloudwatch",
            ServiceType::EventBridge => "eventbridge",
            ServiceType::Sns => "sns",
            ServiceType::Sqs => "sqs",
            ServiceType::Ses => "ses",
        }
    }

    /// Every supported service, in catalog order.
    pub fn all() -> (r: Vec<Self>)
        ensures
            r@ == all_services(),
    {
        let mut out: Vec<ServiceType> = Vec::new();
        out.push(ServiceType::Ec2);
        out.push(ServiceType::S3);
        out.push(ServiceType::Rds);
        out.push(ServiceType::Lambda);
        out.push(ServiceType::Iam);
        out.push(ServiceType::CloudFormation);
        out.push(ServiceType::Ecs);
        out.push(ServiceType::Vpc);
        out.push(ServiceType::Elb);
        out.push(ServiceType::Route53);
        out.push(ServiceType::CloudFront);
        out.push(ServiceType::ElastiCache);
        out.push(ServiceType::SecretsManager);
        out.push(ServiceType::Ecr);
        out.push(ServiceType::Acm);
        out.push(ServiceType::Waf);
        out.push(ServiceType::CloudWatch);
        out.push(ServiceType::EventBridge);
        out.push(ServiceType::Sns);
        out.push(ServiceType::Sqs);
        out.push(ServiceType::Ses);
        proof {
            assert(out@ =~= all_services());
        }
        out
    }

    /// Whether this service is global rather than per-region.
    pub fn is_global(&self) -> (r: bool)
        ensures
            r == (*self == ServiceType::S3 || *self == ServiceType::Iam),
    {
        match self {
            ServiceType::S3 => true,
            ServiceType::Iam => true,
            _ => false,
        }
    }

    /// The category of this service.
    pub fn category(&self) -> (r: ServiceCategory)
        ensures
            r == spec_category(*self),
    {
        match self {
            ServiceType::Ec2 | ServiceType::Ecs | ServiceType::Lambda => ServiceCategory::Compute,
            ServiceType::S3 | ServiceType::Rds | ServiceType::ElastiCache =>
                ServiceCategory::Storage,
            ServiceType::Vpc | ServiceType::Elb | ServiceType::Route53
                | ServiceType::CloudFront => ServiceCategory::Networking,
            ServiceType::Iam | ServiceType::Acm | ServiceType::Waf
                | ServiceType::SecretsManager => ServiceCategory::Security,
            ServiceType::CloudFormation | ServiceType::CloudWatch | ServiceType::EventBridge =>
                ServiceCategory::Management,
            ServiceType::Sns | ServiceType::Sqs | ServiceType::Ses => ServiceCategory::Integration,
            ServiceType::Ecr => ServiceCategory::DevTools,
        }
    }
}

/// The names of every supported service, in catalog order.
pub fn get_all_services() -> (r: Vec<String>)
    ensures
        string_views(r@) == all_services().map_values(|s: ServiceType| spec_as_str(s)),
{
    let types = ServiceType::all();
    let mut out: Vec<String> = Vec::new();
    let mut i: usize = 0;
    while i < types.len()
        invariant
            i <= types.len(),
            types@ == all_services(),
            out@.len() == i,
            forall|j: int| 0 <= j < i ==> out@[j]@ == spec_as_str(all_services()[j]),
        decreases types.len() - i,
    {
        out.push(types[i].as_str().to_owned());
        i = i + 1;
    }
    proof {
        assert(string_views(out@) =~= all_services().map_values(|s: ServiceType| spec_as_str(s)));
    }
    out
}

/// Collects EC2 compute and network inventory as one batch of independent
/// listings.
pub struct Ec2Collector;

impl Ec2Collector {
    /// The declarative configuration this collector runs.
    pub fn config() -> (r: CollectorBuilder)
        ensures
            r.model().service == "ec2"@,
            r.model().region_mode == RegionModeModel::Regional,
            r.model().resources.len() == 1,
            r.model().resources[0].mode matches ModeModel::Batch { commands }
                && commands.len() == 22,
            r.wf(),
    {
        CollectorBuilder::new("ec2", RegionMode::Regional).add_batch_commands(
            vec![
                ("instances", vec!["ec2", "describe-instances"]),
                ("vpcs", vec!["ec2", "describe-vpcs"]),
                ("subnets", vec!["ec2", "describe-subnets"]),
                ("route-tables", vec!["ec2", "describe-route-tables"]),
                ("internet-gateways", vec!["ec2", "describe-internet-gateways"]),
                ("nat-gateways", vec!["ec2", "describe-nat-gateways"]),
                ("network-acls", vec!["ec2", "describe-network-acls"]),
                ("security-groups", vec!["ec2", "describe-security-groups"]),
                ("vpc-endpoints", vec!["ec2", "describe-vpc-endpoints"]),
                ("elastic-ips", vec!["ec2", "describe-addresses"]),
                ("volumes", vec!["ec2", "describe-volumes"]),
                ("snapshots", vec!["ec2", "describe-snapshots", "--owner-ids", "self"]),
                ("images", vec!["ec2", "describe-images", "--owners", "self"]),
                ("key-pairs", vec!["ec2", "describe-key-pairs"]),
                ("network-interfaces", vec!["ec2", "describe-network-interfaces"]),
                ("launch-templates", vec!["ec2", "describe-launch-templates"]),
                ("auto-scaling-groups", vec!["autoscaling", "describe-auto-scaling-groups"]),
                ("placement-groups", vec!["ec2", "describe-placement-groups"]),
                ("vpc-peering-connections", vec!["ec2", "describe-vpc-peering-connections"]),
                (
                    "transit-gateway-attachments",
                    vec!["ec2", "describe-transit-gateway-attachments"],
                ),
                ("vpn-connections", vec!["ec2", "describe-vpn-connections"]),
                ("customer-gateways", vec!["ec2", "describe-customer-gateways"]),
            ],
        )
    }
}

/// Collects VPC networking inventory as one batch of independent listings.
pub struct VpcCollector;

impl VpcCollector {
    /// The declarative configuration this collector runs.
    pub fn config() -> (r: CollectorBuilder)
        ensures
            r.model().service == "vpc"@,
            r.model().region_mode == RegionModeModel::Regional,
            r.model().resources.len() == 1,
            r.model().resources[0].mode matches ModeModel::Batch { commands }
                && commands.len() == 10,
            r.wf(),
    {
        CollectorBuilder::new("vpc", RegionMode::Regional).add_batch_commands(
            vec![
                ("vpcs", vec!["ec2", "describe-vpcs"]),
                ("subnets", vec!["ec2", "describe-subnets"]),
                ("route-tables", vec!["ec2", "describe-route-tables"]),
                ("internet-gateways", vec!["ec2", "describe-internet-gateways"]),
                ("nat-gateways", vec!["ec2", "describe-nat-gateways"]),
                ("network-acls", vec!["ec2", "describe-network-acls"]),
                ("vpc-endpoints", vec!["ec2", "describe-vpc-endpoints"]),
                ("vpc-peering-connections", vec!["ec2", "describe-vpc-peering-connections"]),
                ("vpn-gateways", vec!["ec2", "describe-vpn-gateways"]),
                ("customer-gateways", vec!["ec2", "describe-customer-gateways"]),
            ],
        )
    }
}

/// Collects RDS database inventory as one batch of independent listings.
pub struct RdsCollector;

impl RdsCollector {
    /// The declarative configuration this collector runs.
    pub fn config() -> (r: CollectorBuilder)
        ensures
            r.model().service == "rds"@,
            r.model().region_mode == RegionModeModel::Regional,
            r.model().resources.len() == 1,
            r.model().resources[0].mode matches ModeModel::Batch { commands }
                && commands.len() == 12,
            r.wf(),
    {
        CollectorBuilder::new("rds", RegionMode::Regional).add_batch_commands(
            vec![
                ("db-instances", vec!["rds", "describe-db-instances"]),
                ("db-clusters", vec!["rds", "describe-db-clusters"]),
                ("db-snapshots", vec!["rds", "describe-db-snapshots"]),
                ("db-cluster-snapshots", vec!["rds", "describe-db-cluster-snapshots"]),
                ("db-subnet-groups", vec!["rds", "describe-db-subnet-groups"]),
                ("db-parameter-groups", vec!["rds", "describe-db-parameter-groups"]),
                (
                    "db-cluster-parameter-groups",
                    vec!["rds", "describe-db-cluster-parameter-groups"],
                ),
                ("option-groups", vec!["rds", "describe-option-groups"]),
                ("db-security-groups", vec!["rds", "describe-db-security-groups"]),
                ("db-proxies", vec!["rds", "describe-db-proxies"]),
                ("event-subscriptions", vec!["rds", "describe-event-subscriptions"]),
                ("reserved-db-instances", vec!["rds", "describe-reserved-db-instances"]),
            ],
        )
    }
}

/// Collects ElastiCache inventory as one batch of independent listings.
pub struct ElastiCacheCollector;

impl ElastiCacheCollector {
    /// The declarative configuration this collector runs.
    pub fn config() -> (r: CollectorBuilder)
        ensures
            r.model().service == "elasticache"@,
            r.model().region_mode == RegionModeModel::Regional,
            r.model().resources.len() == 1,
            r.model().resources[0].mode matches ModeModel::Batch { commands }
                && commands.len() == 7,
            r.wf(),
    {
        CollectorBuilder::new("elasticache", RegionMode::Regional).add_batch_commands(
            vec![
                ("cache-clusters", vec!["elasticache", "describe-cache-clusters"]),
                ("replication-groups", vec!["elasticache", "describe-replication-groups"]),
                ("cache-subnet-groups", vec!["elasticache", "describe-cache-subnet-groups"]),
                (
                    "cache-parameter-groups",
                    vec!["elasticache", "describe-cache-parameter-groups"],
                ),
                ("cache-security-groups", vec!["elasticache", "describe-cache-security-groups"]),
                ("snapshots", vec!["elasticache", "describe-snapshots"]),
                ("user-groups", vec!["elasticache", "describe-user-groups"]),
            ],
        )
    }
}

/// Collects IAM identity inventory; IAM is global, so the region policy is
/// the "global" pseudo-region.
pub struct IamCollector;

impl IamCollector {
    /// The declarative configuration this collector runs.
    pub fn config() -> (r: CollectorBuilder)
        ensures
            r.model().service == "iam"@,
            r.model().region_mode == RegionModeModel::Global,
            r.model().resources.len() == 8,
            r.wf(),
    {
        CollectorBuilder::new("iam", RegionMode::Global)
            .add_simple_list("users", vec!["iam", "list-users"])
            .add_simple_list("roles", vec!["iam", "list-roles"])
            .add_simple_list("groups", vec!["iam", "list-groups"])
            .add_simple_list("policies", vec!["iam", "list-policies", "--scope", "Local"])
            .add_simple_list("saml-providers", vec!["iam", "list-saml-providers"])
            .add_simple_list("oidc-providers", vec!["iam", "list-open-id-connect-providers"])
            .add_simple_list("instance-profiles", vec!["iam", "list-instance-profiles"])
            .add_simple_list("password-policy", vec!["iam", "get-account-password-policy"])
    }
}

/// Collects SES email inventory as plain listings.
pub struct SesCollector;

impl SesCollector {
    /// The declarative configuration this collector runs.
    pub fn config() -> (r: CollectorBuilder)
        ensures
            r.model().service == "ses"@,
            r.model().region_mode == RegionModeModel::Regional,
            r.model().resources.len() == 5,
            r.wf(),
    {
        CollectorBuilder::new("ses", RegionMode::Regional)
            .add_simple_list("identities", vec!["ses", "list-identities"])
            .add_simple_list("configuration-sets", vec!["ses", "list-configuration-sets"])
            .add_simple_list("receipt-rule-sets", vec!["ses", "list-receipt-rule-sets"])
            .add_simple_list("templates", vec!["ses", "list-templates"])
            .add_simple_list(
                "custom-verification-email-templates",
                vec!["ses", "list-custom-verification-email-templates"],
            )
    }
}

/// Collects the Secrets Manager secret list (metadata only, never values).
pub struct SecretsManagerCollector;

impl SecretsManagerCollector {
    /// The declarative configuration this collector runs.
    pub fn config() -> (r: CollectorBuilder)
        ensures
            r.model().service == "secretsmanager"@,
            r.model().region_mode == RegionModeModel::Regional,
            r.model().resources.len() == 1,
            r.wf(),
    {
        CollectorBuilder::new("secretsmanager", RegionMode::Regional).add_simple_list(
            "secrets",
            vec!["secretsmanager", "list-secrets"],
        )
    }
}

/// Collects WAF inventory; the CloudFront-scoped ACLs exist only in
/// us-east-1, so that region gets one extra listing.
pub struct WafCollector;

impl WafCollector {
    /// The declarative configuration this collector runs for `region`.
    pub fn config(region: &str) -> (r: CollectorBuilder)
        ensures
            r.model().service == "waf"@,
            r.model().region_mode == RegionModeModel::Regional,
            r.model().resources.len() == if region@ == "us-east-1"@ {
                5int
            } else {
                4int
            },
            r.wf(),
    {
        let builder = CollectorBuilder::new("waf", RegionMode::Regional)
            .add_simple_list("web-acls-regional", vec!["wafv2", "list-web-acls", "--scope", "REGIONAL"])
            .add_simple_list("ip-sets", vec!["wafv2", "list-ip-sets", "--scope", "REGIONAL"])
            .add_simple_list(
                "regex-pattern-sets",
                vec!["wafv2", "list-regex-pattern-sets", "--scope", "REGIONAL"],
            )
            .add_simple_list("rule-groups", vec!["wafv2", "list-rule-groups", "--scope", "REGIONAL"]);
        if crate::document::str_eq(region, "us-east-1") {
            builder.add_simple_list(
                "web-acls-cloudfront",
                vec!["wafv2", "list-web-acls", "--scope", "CLOUDFRONT"],
            )
        } else {
            builder
        }
    }
}

/// Collects S3 bucket inventory: the bucket list enriched per bucket with
/// its configuration. S3's control plane answers in us-east-1.
pub struct S3Collector;

impl S3Collector {
    /// The declarative configuration this collector runs.
    pub fn config() -> (r: CollectorBuilder)
        ensures
            r.model().service == "s3"@,
            r.model().region_mode == RegionModeModel::Custom("us-east-1"@),
            r.model().resources.len() == 1,
            r.model().resources[0].mode matches ModeModel::ListEnrich {
                templates,
                concurrency,
                ..
            } && templates.len() == 18 && concurrency == 5,
            r.wf(),
    {
        let templates = vec![
            DetailTemplate::new("Location", "s3api", "get-bucket-location", "--bucket"),
            DetailTemplate::new("Versioning", "s3api", "get-bucket-versioning", "--bucket"),
            DetailTemplate::new("Encryption", "s3api", "get-bucket-encryption", "--bucket"),
            DetailTemplate::new(
                "Lifecycle",
                "s3api",
                "get-bucket-lifecycle-configuration",
                "--bucket",
            ),
            DetailTemplate::new("Logging", "s3api", "get-bucket-logging", "--bucket"),
            DetailTemplate::new("Tags", "s3api", "get-bucket-tagging", "--bucket"),
            DetailTemplate::new("ACL", "s3api", "get-bucket-acl", "--bucket"),
            DetailTemplate::new("Policy", "s3api", "get-bucket-policy", "--bucket"),
            DetailTemplate::new("CORS", "s3api", "get-bucket-cors", "--bucket"),
            DetailTemplate::new("Website", "s3api", "get-bucket-website", "--bucket"),
            DetailTemplate::new(
                "PublicAccessBlock",
                "s3api",
                "get-public-access-block",
                "--bucket",
            ),
            DetailTemplate::new("Replication", "s3api", "get-bucket-replication", "--bucket"),
            DetailTemplate::new(
                "NotificationConfiguration",
                "s3api",
                "get-bucket-notification-configuration",
                "--bucket",
            ),
            DetailTemplate::new(
                "InventoryConfigurations",
                "s3api",
                "list-bucket-inventory-configurations",
                "--bucket",
            ),
            DetailTemplate::new(
                "AnalyticsConfigurations",
                "s3api",
                "list-bucket-analytics-configurations",
                "--bucket",
            ),
            DetailTemplate::new(
                "MetricsConfigurations",
                "s3api",
                "list-bucket-metrics-configurations",
                "--bucket",
            ),
            DetailTemplate::new(
                "IntelligentTieringConfigurations",
                "s3api",
                "list-bucket-intelligent-tiering-configurations",
                "--bucket",
            ),
            DetailTemplate::new(
                "ObjectLockConfiguration",
                "s3api",
                "get-object-lock-configuration",
                "--bucket",
            ),
        ];
        let built = CollectorBuilder::new(
            "s3",
            RegionMode::Custom("us-east-1".to_owned()),
        ).add_detailed_resource(
            "buckets",
            vec!["s3api", "list-buckets"],
            "Buckets",
            "Name",
            5,
            templates,
        );
        match built {
            Ok(b) => b,
            Err(_) => vstd::pervasive::unreached(),
        }
    }
}

/// Collects ECR repository inventory, enriched per repository.
pub struct EcrCollector;

impl EcrCollector {
    /// The declarative configuration this collector runs.
    pub fn config() -> (r: CollectorBuilder)
        ensures
            r.model().service == "ecr"@,
            r.model().region_mode == RegionModeModel::Regional,
            r.model().resources.len() == 1,
            r.model().resources[0].mode matches ModeModel::ListEnrich {
                templates,
                concurrency,
                ..
            } && templates.len() == 3 && concurrency == 10,
            r.wf(),
    {
        let templates = vec![
            DetailTemplate::new("Images", "ecr", "list-images", "--repository-name"),
            DetailTemplate::new(
                "LifecyclePolicy",
                "ecr",
                "get-lifecycle-policy",
                "--repository-name",
            ),
            DetailTemplate::new(
                "RepositoryPolicy",
                "ecr",
                "get-repository-policy",
                "--repository-name",
            ),
        ];
        let built = CollectorBuilder::new("ecr", RegionMode::Regional).add_detailed_resource(
            "repositories",
            vec!["ecr", "describe-repositories"],
            "repositories",
            "repositoryName",
            10,
            templates,
        );
        match built {
            Ok(b) => b,
            Err(_) => vstd::pervasive::unreached(),
        }
    }
}

/// Collects SNS topic inventory, enriched per topic, plus the platform
/// application list.
pub struct SnsCollector;

impl SnsCollector {
    /// The declarative configuration this collector runs.
    pub fn config() -> (r: CollectorBuilder)
        ensures
            r.model().service == "sns"@,
            r.model().region_mode == RegionModeModel::Regional,
            r.model().resources.len() == 2,
            r.wf(),
    {
        let templates = vec![
            DetailTemplate::new("Attributes", "sns", "get-topic-attributes", "--topic-arn"),
            DetailTemplate::new(
                "Subscriptions",
                "sns",
                "list-subscriptions-by-topic",
                "--topic-arn",
            ),
            DetailTemplate::new("Tags", "sns", "list-tags-for-resource", "--resource-arn"),
        ];
        let built = CollectorBuilder::new("sns", RegionMode::Regional).add_detailed_resource(
            "topics",
            vec!["sns", "list-topics"],
            "Topics",
            "TopicArn",
            10,
            templates,
        );
        let b = match built {
            Ok(b) => b,
            Err(_) => vstd::pervasive::unreached(),
        };
        b.add_simple_list("platform-applications", vec!["sns", "list-platform-applications"])
    }
}

/// Collects Lambda function inventory, enriched per function, plus layers
/// and code-signing configurations.
pub struct LambdaCollector;

impl LambdaCollector {
    /// The declarative configuration this collector runs.
    pub fn config() -> (r: CollectorBuilder)
        ensures
            r.model().service == "lambda"@,
            r.model().region_mode == RegionModeModel::Regional,
            r.model().resources.len() == 3,
            r.wf(),
    {
        let templates = vec![
            DetailTemplate::new(
                "Configuration",
                "lambda",
                "get-function-configuration",
                "--function-name",
            ),
            DetailTemplate::new("Aliases", "lambda", "list-aliases", "--function-name"),
            DetailTemplate::new(
                "Versions",
                "lambda",
                "list-versions-by-function",
                "--function-name",
            ),
            DetailTemplate::new(
                "EventSourceMappings",
                "lambda",
                "list-event-source-mappings",
                "--function-name",
            ),
            DetailTemplate::new(
                "FunctionUrlConfig",
                "lambda",
                "get-function-url-config",
                "--function-name",
            ),
            DetailTemplate::new(
                "Concurrency",
                "lambda",
                "get-function-concurrency",
                "--function-name",
            ),
        ];
        let built = CollectorBuilder::new("lambda", RegionMode::Regional).add_detailed_resource(
            "functions",
            vec!["lambda", "list-functions"],
            "Functions",
            "FunctionName",
            10,
            templates,
        );
        let b = match built {
            Ok(b) => b,
            Err(_) => vstd::pervasive::unreached(),
        };
        b.add_simple_list("layers", vec!["lambda", "list-layers"]).add_simple_list(
            "code-signing-configs",
            vec!["lambda", "list-code-signing-configs"],
        )
    }
}

/// Collects CloudWatch inventory: plain listings plus log groups enriched
/// per log group.
pub struct CloudWatchCollector;

impl CloudWatchCollector {
    /// The declarative configuration this collector runs.
    pub fn config() -> (r: CollectorBuilder)
        ensures
            r.model().service == "cloudwatch"@,
            r.model().region_mode == RegionModeModel::Regional,
            r.model().resources.len() == 5,
            r.wf(),
    {
        let templates = vec![
            DetailTemplate::new(
                "MetricFilters",
                "logs",
                "describe-metric-filters",
                "--log-group-name",
            ),
            DetailTemplate::new(
                "SubscriptionFilters",
                "logs",
                "describe-subscription-filters",
                "--log-group-name",
            ),
        ];
        let built = CollectorBuilder::new("cloudwatch", RegionMode::Regional)
            .add_simple_list("alarms", vec!["cloudwatch", "describe-alarms"])
            .add_simple_list("dashboards", vec!["cloudwatch", "list-dashboards"])
            .add_simple_list("metric-streams", vec!["cloudwatch", "list-metric-streams"])
            .add_simple_list("insights-rules", vec!["cloudwatch", "describe-insight-rules"])
            .add_detailed_resource(
            "log-groups",
            vec!["logs", "describe-log-groups"],
            "logGroups",
            "logGroupName",
            10,
            templates,
        );
        match built {
            Ok(b) => b,
            Err(_) => vstd::pervasive::unreached(),
        }
    }
}

/// Collects ACM certificates; its per-certificate describe-then-tag flow
/// interleaves remote calls, so its driver lives with the other I/O.
pub struct AcmCollector;

/// Collects CloudFormation stacks, stack sets, exports and change sets; the
/// change-set listing depends on the stack listing, so its driver lives with
/// the other I/O.
pub struct CloudFormationCollector;

/// Collects CloudFront distributions with their config and tags; its
/// per-distribution flow interleaves remote calls, so its driver lives with
/// the other I/O.
pub struct CloudFrontCollector;

/// Collects ECS clusters, services, tasks and container instances; its
/// per-cluster flows interleave remote calls, so its driver lives with the
/// other I/O.
pub struct EcsCollector;

/// Collects classic and v2 load balancers with per-resource details; its
/// flow interleaves remote calls, so its driver lives with the other I/O.
pub struct ElbCollector;

/// Collects Route 53 hosted zones with record sets and tags; its flow
/// interleaves remote calls, so its driver lives with the other I/O.
pub struct Route53Collector;

/// Collects EventBridge buses, rules and targets; its per-rule flow
/// interleaves remote calls, so its driver lives with the other I/O.
pub struct EventBridgeCollector;

/// Collects SQS queues with attributes and tags; its per-queue flow
/// interleaves remote calls, so its driver lives with the other I/O.
pub struct SqsCollector;

} // verus!
