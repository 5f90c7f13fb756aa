//! The entry point for an application: start from an empty merged source,
//! let the `config` crate layer files and other stores into it, then build
//! the configuration.

use vstd::prelude::*;
use config::Config;
use crate::cli::CliValues;
use crate::resolve::resolution;
use crate::resolve::resolve;
use crate::resolve::result_view;
use crate::resolve::AggregatedResolutionError;
use crate::resolve::ResolutionContext;
use crate::resolve::ResolvedConfiguration;
use crate::schema::Schema;
use crate::source::empty_source;
use crate::source::is_plain_key;
use crate::source::properties;

verus! {

/// Holds the merged source while it is being layered.
pub struct PlatformConfigBuilder {
    /// The merged source. Layers are merged into it with the `config` crate's
    /// own operations.
    pub config: Config,
}

impl PlatformConfigBuilder {
    /// A builder whose merged source holds nothing yet.
    pub fn new() -> (builder: Self)
        ensures
            forall|key: Seq<char>|
                is_plain_key(key) ==> !(#[trigger] properties(builder.config).dom().contains(key)),
    {
        PlatformConfigBuilder { config: empty_source() }
    }

    /// Resolves the fields of `schema` from what the command line supplied
    /// and from the merged source as it stands.
    pub fn build(self, schema: &Schema, cli: CliValues) -> (r: Result<
        ResolvedConfiguration,
        AggregatedResolutionError,
    >)
        ensures
            result_view(r) == resolution(schema@, cli@, properties(self.config)),
    {
        let context = ResolutionContext { cli, source: self.config };
        resolve(schema, &context)
    }
}

} // verus!
