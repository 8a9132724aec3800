//! The parsed command line, as plain data: which provider is addressed and,
//! for the cloud account provider, which command with which options.

use vstd::prelude::*;

verus! {

/// One parsed invocation of the tool.
#[derive(Debug, PartialEq)]
pub struct Cli {
    pub provider: Provider,
}

/// The cloud provider a run addresses.
#[derive(Debug, PartialEq)]
pub enum Provider {
    /// Amazon Web Services.
    Aws { command: AwsCommands },
    /// Google Cloud Platform (not yet supported).
    Gcp,
    /// Microsoft Azure (not yet supported).
    Azure,
}

/// The commands of the AWS provider.
#[derive(Debug, PartialEq)]
pub enum AwsCommands {
    /// Collect resources.
    Collect {
        /// The profile to run under.
        profile: String,
        /// Extra regions to collect from, comma-separated.
        regions: Option<String>,
        /// The services collected from the extra regions, comma-separated;
        /// all of them when absent.
        region_services: Option<String>,
        /// Whether to write new timestamped files instead of overwriting.
        create_new_file: bool,
        /// The outer fan-out ceiling, clamped to 1..=10 before a run.
        concurrency: usize,
    },
    /// List the supported services.
    ListServices,
}

} // verus!
